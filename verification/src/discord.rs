//! What Discord shows while the daemon records.

use std::collections::VecDeque;
use vstd::prelude::*;

verus! {

/// The application that Discord shows.
pub const DISCORD_CLIENT_ID: &'static str = "1416659610416316466";

/// A wish to show something.
#[derive(Debug)]
pub enum PresenceCommand {
    /// A recording of this game, or of the desktop.
    Recording {
        /// The game.
        game: Option<String>,
    },
}

impl PresenceCommand {
    /// The game of the recording.
    pub open spec fn shown_game(self) -> Option<String> {
        let PresenceCommand::Recording { game } = self;
        game
    }
}

/// Takes the wishes in, to be fulfilled one after the other.
#[derive(Debug)]
pub struct DiscordPresenceManager {
    /// The wishes that were not taken up yet, oldest first.
    pub waiting: VecDeque<PresenceCommand>,
}

impl DiscordPresenceManager {
    /// No wishes yet.
    pub fn new() -> (r: DiscordPresenceManager)
        ensures
            r.waiting@.len() == 0,
    {
        DiscordPresenceManager { waiting: VecDeque::new() }
    }

    /// Wishes that a recording of this game, or of the desktop, is shown.
    pub fn set_recording(&mut self, game: Option<String>)
        ensures
            final(self).waiting@ == old(self).waiting@.push(PresenceCommand::Recording { game }),
    {
        self.waiting.push_back(PresenceCommand::Recording { game });
    }

    /// Takes up the oldest wish.
    pub fn next(&mut self) -> (r: Option<PresenceCommand>)
        ensures
            old(self).waiting@.len() == 0 ==> r is None && final(self).waiting@ == old(
                self).waiting@,
            old(self).waiting@.len() > 0 ==> r == Some(old(self).waiting@[0])
                && final(self).waiting@ == old(self).waiting@.drop_first(),
    {
        self.waiting.pop_front()
    }
}

impl Default for DiscordPresenceManager {
    fn default() -> (r: DiscordPresenceManager)
        ensures
            r.waiting@.len() == 0,
    {
        DiscordPresenceManager::new()
    }
}

/// What Discord is to show.
#[derive(Debug)]
pub struct PresenceActivity {
    /// What is done.
    pub state: String,
    /// With what.
    pub details: String,
    /// Since when, in seconds since 1970.
    pub started_at: i64,
}

/// What is to be done with Discord.
#[derive(Debug)]
pub enum PresenceAction {
    /// Connect to it.
    Connect,
    /// Have it show this.
    Show(PresenceActivity),
    /// Nothing.
    Rest,
}

/// The second at which a recording that starts now started, given the seconds since 1970,
/// if the clock shows a time after that.
pub open spec fn start_second(now_s: Option<u64>) -> i64 {
    match now_s {
        Some(s) => s as i64,
        None => 0,
    }
}

/// Fulfils the wishes.
#[derive(Debug)]
pub struct PresenceWorker {
    /// When the recording started.
    pub started_at: Option<i64>,
    /// Whether Discord is connected.
    pub connected: bool,
    /// The game of the wish that waits for a connection.
    pub game: Option<String>,
}

impl PresenceWorker {
    /// Whether this is what Discord is to show of a recording of this game.
    pub open spec fn shows(activity: PresenceActivity, game: Option<String>, started_at: i64) -> bool {
        &&& activity.state@ == "Recording"@
        &&& activity.details@ == match game {
            Some(g) => g@,
            None => "Desktop"@,
        }
        &&& activity.started_at == started_at
    }

    /// Nothing was wished yet.
    pub fn new() -> (r: PresenceWorker)
        ensures
            r.started_at is None,
            !r.connected,
            r.game is None,
    {
        PresenceWorker { started_at: None, connected: false, game: None }
    }

    fn activity(&self, started_at: i64) -> (r: PresenceActivity)
        ensures
            PresenceWorker::shows(r, self.game, started_at),
    {
        let details: String = match &self.game {
            Some(g) => g.clone(),
            None => "Desktop".to_owned(),
        };
        PresenceActivity { state: "Recording".to_owned(), details, started_at }
    }

    /// Whether `self` is `before` after it took up a wish, and does this about it.
    pub open spec fn has_taken_up(
        &self,
        before: &PresenceWorker,
        command: PresenceCommand,
        now_s: Option<u64>,
        r: PresenceAction,
    ) -> bool {
        &&& self.game == command.shown_game()
        &&& self.connected == before.connected
        &&& self.started_at == Some(
            match before.started_at {
                Some(s) => s,
                None => start_second(now_s),
            },
        )
        &&& !before.connected ==> r is Connect
        &&& before.connected ==> (r matches PresenceAction::Show(a) && PresenceWorker::shows(
            a,
            command.shown_game(),
            self.started_at.unwrap(),
        ))
    }

    /// Whether `self` is `before` after Discord was asked for a connection, and goes on so.
    pub open spec fn has_connected(
        &self,
        before: &PresenceWorker,
        succeeded: bool,
        r: PresenceAction,
    ) -> bool {
        &&& self.game == before.game
        &&& self.started_at == before.started_at
        &&& self.connected == succeeded
        &&& match (succeeded, before.started_at) {
            (true, Some(s)) => r matches PresenceAction::Show(a) && PresenceWorker::shows(
                a,
                before.game,
                s,
            ),
            _ => r is Rest,
        }
    }

    /// Takes up a wish. The first one fixes when the recording started.
    pub fn on_command(&mut self, command: PresenceCommand, now_s: Option<u64>) -> (r:
        PresenceAction)
        ensures
            final(self).has_taken_up(old(self), command, now_s, r),
    {
        let PresenceCommand::Recording { game } = command;
        self.game = game;
        let started_at: i64 = match self.started_at {
            Some(s) => s,
            None => match now_s {
                Some(s) => s as i64,
                None => 0,
            },
        };
        self.started_at = Some(started_at);
        if self.connected {
            PresenceAction::Show(self.activity(started_at))
        } else {
            PresenceAction::Connect
        }
    }

    /// Goes on after Discord was asked for a connection. A wish that finds Discord gone is
    /// dropped.
    pub fn on_connect(&mut self, succeeded: bool) -> (r: PresenceAction)
        ensures
            final(self).has_connected(old(self), succeeded, r),
    {
        self.connected = succeeded;
        match self.started_at {
            Some(s) => if succeeded {
                PresenceAction::Show(self.activity(s))
            } else {
                PresenceAction::Rest
            },
            None => PresenceAction::Rest,
        }
    }

    /// Goes on after Discord was asked to show something. If it did not, the connection
    /// counts as lost.
    pub fn on_shown(&mut self, succeeded: bool)
        ensures
            final(self).game == old(self).game,
            final(self).started_at == old(self).started_at,
            final(self).connected == (old(self).connected && succeeded),
    {
        if !succeeded {
            self.connected = false;
        }
    }
}

/// A recording that starts now started at the second that the clock shows.
pub proof fn law_recording_starts_now(now_s: u64)
    requires
        now_s <= i64::MAX,
    ensures
        start_second(Some(now_s)) == now_s,
        start_second(None) == 0,
{
}

/// Discord shows the name of the game, whole, or that there is none; two recordings of the same
/// game that started together look the same, and those of two games do not.
pub proof fn law_presence_names_the_game(
    shown: PresenceActivity,
    other: PresenceActivity,
    game: String,
    other_game: String,
    started_at: i64,
)
    requires
        PresenceWorker::shows(shown, Some(game), started_at),
        PresenceWorker::shows(other, Some(other_game), started_at),
    ensures
        shown.details@ == game@,
        shown.state@ == "Recording"@,
        shown.started_at == started_at,
        shown.details@ == other.details@ <==> game@ == other_game@,
{
}

/// A recording without a game is shown as one of the desktop.
pub proof fn law_presence_without_a_game(shown: PresenceActivity, started_at: i64)
    requires
        PresenceWorker::shows(shown, None, started_at),
    ensures
        shown.details@ == "Desktop"@,
        shown.state@ == "Recording"@,
        shown.started_at == started_at,
{
}

/// The game that is shown is the one of the wish.
pub proof fn law_wish_is_fulfilled(game: Option<String>)
    ensures
        (PresenceCommand::Recording { game }).shown_game() == game,
{
}

/// The first wish fixes when the recording started, and no later one moves it; a wish is shown at
/// once where Discord is connected, and else as soon as it is, with the game of the last wish.
pub proof fn law_last_wish_is_shown(
    fresh: PresenceWorker,
    first: PresenceWorker,
    second: PresenceWorker,
    third: PresenceWorker,
    game: Option<String>,
    other: Option<String>,
    now_s: u64,
    later_s: Option<u64>,
    one: PresenceAction,
    two: PresenceAction,
    three: PresenceAction,
    succeeded: bool,
)
    requires
        fresh.started_at is None,
        !fresh.connected,
        now_s <= i64::MAX,
        first.has_taken_up(&fresh, PresenceCommand::Recording { game }, Some(now_s), one),
        second.has_taken_up(&first, PresenceCommand::Recording { game: other }, later_s, two),
        third.has_connected(&second, succeeded, three),
    ensures
        one is Connect && two is Connect,
        third.started_at == Some(now_s as i64),
        third.connected == succeeded,
        succeeded ==> (three matches PresenceAction::Show(a) && a.started_at == now_s && (
        match other {
            Some(g) => a.details@ == g@,
            None => a.details@ == "Desktop"@,
        })),
        !succeeded ==> three is Rest,
{
}

/// While Discord is connected, a wish is shown at once, and the connection stays.
pub proof fn law_connected_wish_is_shown_at_once(
    before: PresenceWorker,
    after: PresenceWorker,
    game: Option<String>,
    now_s: Option<u64>,
    r: PresenceAction,
)
    requires
        before.connected,
        after.has_taken_up(&before, PresenceCommand::Recording { game }, now_s, r),
    ensures
        after.connected,
        r matches PresenceAction::Show(a) && a.state@ == "Recording"@ && (match game {
            Some(g) => a.details@ == g@,
            None => a.details@ == "Desktop"@,
        }) && (before.started_at matches Some(s) ==> a.started_at == s),
{
}

} // verus!
