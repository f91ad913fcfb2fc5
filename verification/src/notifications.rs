//! Which events the user hears of, and in what words.

use crate::paths::{branding, join};
use crate::settings::NotificationSettings;
use crate::text::cat;
use vstd::prelude::*;

verus! {

/// The service that shows messages.
pub const DBUS_NOTIFICATION_DESTINATION: &'static str = "org.freedesktop.Notifications";

/// The object of that service.
pub const DBUS_NOTIFICATION_PATH: &'static str = "/org/freedesktop/Notifications";

/// Something that the user may want to hear of.
#[derive(Clone, Copy, Debug, PartialEq, Eq, Structural)]
pub enum NotificationEvent {
    /// A clip was saved.
    SaveSuccess,
    /// A clip could not be saved.
    SaveError,
    /// The daemon starts.
    DaemonStart,
    /// The daemon stops.
    DaemonStop,
    /// The user tries messages out.
    Test,
}

/// How much a message presses.
#[derive(Clone, Copy, Debug, PartialEq, Eq, Structural)]
pub enum Urgency {
    /// An ordinary message.
    Normal,
    /// A message that stays until it was seen.
    Critical,
}

impl Urgency {
    /// The number by which the message service knows the urgency.
    pub open spec fn number(self) -> u8 {
        match self {
            Urgency::Normal => 1,
            Urgency::Critical => 2,
        }
    }

    /// The number by which the message service knows the urgency.
    pub fn level(self) -> (r: u8)
        ensures
            r == self.number(),
    {
        match self {
            Urgency::Normal => 1,
            Urgency::Critical => 2,
        }
    }
}

impl NotificationEvent {
    /// The headline of the message.
    pub open spec fn summary(self) -> Seq<char> {
        match self {
            NotificationEvent::DaemonStop => "Daemon has stopped"@,
            NotificationEvent::DaemonStart => "Daemon has started"@,
            NotificationEvent::SaveError => "Error saving clip"@,
            NotificationEvent::SaveSuccess => "Saved new clip"@,
            NotificationEvent::Test => "A test notification"@,
        }
    }

    /// The text of the message.
    pub open spec fn body(self, content: Seq<char>) -> Seq<char> {
        match self {
            NotificationEvent::SaveSuccess => "A new clip was saved succesfully: "@ + content,
            NotificationEvent::SaveError => "Error occurred while saving clip: "@ + content,
            NotificationEvent::DaemonStart =>
            "The Wayclip daemon was started and is currently recording"@,
            NotificationEvent::DaemonStop => "The Wayclip daemon has stopped recording"@,
            NotificationEvent::Test => "Test: "@ + content,
        }
    }

    /// How long the message is shown, in milliseconds.
    pub open spec fn timeout_ms(self) -> i32 {
        match self {
            NotificationEvent::DaemonStop => 1500,
            NotificationEvent::DaemonStart => 1500,
            NotificationEvent::SaveError => 4000,
            NotificationEvent::SaveSuccess => 1000,
            NotificationEvent::Test => 500,
        }
    }

    /// How much the message presses.
    pub open spec fn urgency(self) -> Urgency {
        if self is SaveError {
            Urgency::Critical
        } else {
            Urgency::Normal
        }
    }

    /// The headline of the message.
    pub fn get_summary(&self) -> (r: &str)
        ensures
            r@ == self.summary(),
    {
        match self {
            NotificationEvent::DaemonStop => "Daemon has stopped",
            NotificationEvent::DaemonStart => "Daemon has started",
            NotificationEvent::SaveError => "Error saving clip",
            NotificationEvent::SaveSuccess => "Saved new clip",
            NotificationEvent::Test => "A test notification",
        }
    }

    /// The text of the message.
    pub fn get_body(&self, content: String) -> (r: String)
        ensures
            r@ == self.body(content@),
    {
        match self {
            NotificationEvent::SaveSuccess => cat(
                "A new clip was saved succesfully: ",
                content.as_str(),
            ),
            NotificationEvent::SaveError => cat(
                "Error occurred while saving clip: ",
                content.as_str(),
            ),
            NotificationEvent::DaemonStart =>
            "The Wayclip daemon was started and is currently recording".to_owned(),
            NotificationEvent::DaemonStop => "The Wayclip daemon has stopped recording".to_owned(),
            NotificationEvent::Test => cat("Test: ", content.as_str()),
        }
    }

    /// The picture of the message, given the directory of the daemon's package.
    pub fn get_icon(&self, package_dir: &str) -> (r: String)
        ensures
            r@ == crate::paths::branding_path(package_dir@, "svgs"@, "wayclip.svg"@),
    {
        branding(package_dir, "svgs", "wayclip.svg")
    }

    /// How long the message is shown, in milliseconds.
    pub fn get_timeout_ms(&self) -> (r: i32)
        ensures
            r == self.timeout_ms(),
    {
        match self {
            NotificationEvent::DaemonStop | NotificationEvent::DaemonStart => 1500,
            NotificationEvent::SaveError => 4000,
            NotificationEvent::SaveSuccess => 1000,
            NotificationEvent::Test => 500,
        }
    }

    /// How much the message presses.
    pub fn get_urgency(&self) -> (r: Urgency)
        ensures
            r == self.urgency(),
    {
        match self {
            NotificationEvent::SaveError => Urgency::Critical,
            _ => Urgency::Normal,
        }
    }
}

/// A sound that goes with an event.
#[derive(Clone, Copy, Debug, PartialEq, Eq, Structural)]
pub enum NotificationSound {
    /// Something went well.
    Success,
    /// Something failed.
    Error,
}

impl NotificationSound {
    /// The file of the sound, given the directory of the daemon's package.
    pub open spec fn sound_path(self, package_dir: Seq<char>) -> Seq<char> {
        let name = match self {
            NotificationSound::Success => "success.wav"@,
            NotificationSound::Error => "error.wav"@,
        };
        crate::paths::joined(
            crate::paths::joined(crate::paths::joined(package_dir, "static"@), "sounds"@),
            name,
        )
    }

    /// The file of the sound, given the directory of the daemon's package.
    pub fn get_sound_path(&self, package_dir: &str) -> (r: String)
        ensures
            r@ == self.sound_path(package_dir@),
    {
        let name: &str = match self {
            NotificationSound::Success => "success.wav",
            NotificationSound::Error => "error.wav",
        };
        let sounds: String = join(join(package_dir, "static").as_str(), "sounds");
        join(sounds.as_str(), name)
    }
}

/// A message as the message service takes it.
#[derive(Debug)]
pub struct Notification {
    /// Who sends it.
    pub app_name: String,
    /// The message that it takes the place of; zero for none.
    pub replaces_id: u32,
    /// The picture.
    pub icon: String,
    /// The headline.
    pub summary: String,
    /// The text.
    pub body: String,
    /// How much it presses.
    pub urgency: u8,
    /// How long it is shown, in milliseconds.
    pub timeout_ms: i32,
}

/// What an event leads to.
#[derive(Clone, Copy, Debug, PartialEq, Eq, Structural)]
pub struct Reaction {
    /// The sound to play, if any.
    pub sound: Option<NotificationSound>,
    /// Whether to send the message.
    pub message: bool,
}

/// Decides on messages and sounds.
pub struct NotificationManager;

impl NotificationManager {
    /// What an event leads to under these settings.
    pub open spec fn reaction(event: NotificationEvent, settings: NotificationSettings) -> Reaction {
        Reaction {
            sound: match event {
                NotificationEvent::SaveError if settings.sounds.on_save_error => Some(
                    NotificationSound::Error,
                ),
                NotificationEvent::SaveSuccess if settings.sounds.on_save_success => Some(
                    NotificationSound::Success,
                ),
                _ => None,
            },
            message: match event {
                NotificationEvent::SaveError => settings.message.on_save_error,
                NotificationEvent::SaveSuccess => settings.message.on_save_success,
                NotificationEvent::DaemonStart => settings.message.on_daemon_start,
                NotificationEvent::DaemonStop => settings.message.on_daemon_stop,
                NotificationEvent::Test => false,
            },
        }
    }

    /// What an event leads to under these settings.
    pub fn process_event(event: NotificationEvent, settings: NotificationSettings) -> (r: Reaction)
        ensures
            r == NotificationManager::reaction(event, settings),
    {
        let sound: Option<NotificationSound> = match event {
            NotificationEvent::SaveError => if settings.sounds.on_save_error {
                Some(NotificationSound::Error)
            } else {
                None
            },
            NotificationEvent::SaveSuccess => if settings.sounds.on_save_success {
                Some(NotificationSound::Success)
            } else {
                None
            },
            _ => None,
        };
        let message: bool = match event {
            NotificationEvent::SaveError => settings.message.on_save_error,
            NotificationEvent::SaveSuccess => settings.message.on_save_success,
            NotificationEvent::DaemonStart => settings.message.on_daemon_start,
            NotificationEvent::DaemonStop => settings.message.on_daemon_stop,
            NotificationEvent::Test => false,
        };
        Reaction { sound, message }
    }

    /// The message of an event, given the directory of the daemon's package.
    pub fn send_notification(event: NotificationEvent, content: String, package_dir: &str) -> (r:
        Notification)
        ensures
            r.app_name@ == "Wayclip"@,
            r.replaces_id == 0,
            r.icon@ == crate::paths::branding_path(package_dir@, "svgs"@, "wayclip.svg"@),
            r.summary@ == event.summary(),
            r.body@ == event.body(content@),
            r.urgency == event.urgency().number(),
            r.timeout_ms == event.timeout_ms(),
    {
        Notification {
            app_name: "Wayclip".to_owned(),
            replaces_id: 0,
            icon: event.get_icon(package_dir),
            summary: event.get_summary().to_owned(),
            body: event.get_body(content),
            urgency: event.get_urgency().level(),
            timeout_ms: event.get_timeout_ms(),
        }
    }
}

/// Nothing but a failed save presses.
pub proof fn law_only_failure_is_critical(event: NotificationEvent)
    ensures
        event.urgency() is Critical <==> event is SaveError,
        event.urgency().number() == 2 <==> event is SaveError,
{
}

/// A try-out is never sent on its own account, whatever the settings.
pub proof fn law_test_event_is_silent(settings: NotificationSettings)
    ensures
        NotificationManager::reaction(NotificationEvent::Test, settings) == (Reaction {
            sound: None,
            message: false,
        }),
{
}

/// Starting and stopping make no sound, whatever the settings.
pub proof fn law_only_saves_sound(event: NotificationEvent, settings: NotificationSettings)
    ensures
        NotificationManager::reaction(event, settings).sound is Some ==> event is SaveError
            || event is SaveSuccess,
{
}

/// Each event has a switch of its own for the message, and each kind of save one for the sound:
/// the others do not matter to it.
pub proof fn law_each_event_has_its_switch(settings: NotificationSettings)
    ensures
        NotificationManager::reaction(NotificationEvent::SaveSuccess, settings).message
            == settings.message.on_save_success,
        NotificationManager::reaction(NotificationEvent::SaveError, settings).message
            == settings.message.on_save_error,
        NotificationManager::reaction(NotificationEvent::DaemonStart, settings).message
            == settings.message.on_daemon_start,
        NotificationManager::reaction(NotificationEvent::DaemonStop, settings).message
            == settings.message.on_daemon_stop,
        NotificationManager::reaction(NotificationEvent::SaveSuccess, settings).sound == (
        if settings.sounds.on_save_success {
            Some(NotificationSound::Success)
        } else {
            None
        }),
        NotificationManager::reaction(NotificationEvent::SaveError, settings).sound == (
        if settings.sounds.on_save_error {
            Some(NotificationSound::Error)
        } else {
            None
        }),
{
}

/// A message about a save, and a try-out, end with what there is to say, whole; a message about
/// the daemon says the same whatever there is to say.
pub proof fn law_message_tells_the_content(
    event: NotificationEvent,
    content: Seq<char>,
    other: Seq<char>,
)
    ensures
        event is SaveSuccess || event is SaveError || event is Test ==> crate::text::finishes_with(
            event.body(content),
            content,
        ) && event.body(content).len() - content.len() == event.body(other).len() - other.len(),
        event is DaemonStart || event is DaemonStop ==> event.body(content) == event.body(other),
{
    let head = match event {
        NotificationEvent::SaveSuccess => "A new clip was saved succesfully: "@,
        NotificationEvent::SaveError => "Error occurred while saving clip: "@,
        _ => "Test: "@,
    };
    crate::text::law_text_is_found_where_it_stands(head, content, other);
}

/// Nothing is shown longer than the message about a failed save, and nothing but a try-out
/// shorter than a second.
pub proof fn law_failure_is_shown_longest(event: NotificationEvent)
    ensures
        event.timeout_ms() <= NotificationEvent::SaveError.timeout_ms(),
        event.timeout_ms() == 4000 <==> event is SaveError,
        event.timeout_ms() < 1000 <==> event is Test,
{
}

/// The sound of a success and that of a failure lie in the same directory, below the package,
/// each in a file of its own.
pub proof fn law_sounds_lie_in_the_package(package_dir: Seq<char>, sound: NotificationSound)
    ensures
        crate::text::begins_with(sound.sound_path(package_dir), package_dir),
        sound is Success ==> crate::text::finishes_with(
            sound.sound_path(package_dir),
            "success.wav"@,
        ),
        sound is Error ==> crate::text::finishes_with(sound.sound_path(package_dir), "error.wav"@),
{
    reveal_strlit("static");
    reveal_strlit("sounds");
    reveal_strlit("success.wav");
    reveal_strlit("error.wav");
    reveal_strlit("/");
    let name = match sound {
        NotificationSound::Success => "success.wav"@,
        NotificationSound::Error => "error.wav"@,
    };
    let outer = crate::paths::joined(package_dir, "static"@);
    let dir = crate::paths::joined(outer, "sounds"@);
    assert("/"@[0] == '/');
    assert("static"@.subrange(0, 1)[0] == 's');
    assert("sounds"@.subrange(0, 1)[0] == 's');
    assert(name.subrange(0, 1)[0] == name[0]);
    assert(name[0] != '/');
    crate::paths::law_join_stays_below(package_dir, "static"@);
    crate::paths::law_join_stays_below(outer, "sounds"@);
    crate::paths::law_join_stays_below(dir, name);
    let whole = sound.sound_path(package_dir);
    assert(outer.subrange(0, package_dir.len() as int) == package_dir);
    assert(dir.subrange(0, outer.len() as int) == outer);
    assert(whole.subrange(0, dir.len() as int) == dir);
    assert(whole.subrange(0, package_dir.len() as int) =~= whole.subrange(
        0,
        dir.len() as int,
    ).subrange(0, outer.len() as int).subrange(0, package_dir.len() as int));
}

} // verus!
