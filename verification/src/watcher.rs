//! Watching the capture pipeline.

use crate::daemon::DaemonCore;
use crate::manager::ShutdownReason;
use crate::text::{cat, contains_any};
use vstd::prelude::*;

verus! {

/// The seconds without a frame after which a running pipeline counts as stalled.
pub const PIPELINE_STALL_S: u64 = 10;

/// The milliseconds without a frame after which a starting pipeline counts as stalled.
pub const STARTUP_STALL_MS: u64 = 5000;

/// The milliseconds between an error and the recovery from it.
pub const RECOVERY_DELAY_MS: u64 = 500;

/// What the capture pipeline reports.
#[derive(Debug)]
pub enum WatchMessage {
    /// It failed.
    Error {
        /// Why, in words.
        text: String,
        /// Whether the stream or a resource is at fault.
        stream_or_resource: bool,
    },
    /// It ended.
    Eos,
    /// Something is odd, but it goes on.
    Warning,
    /// Something else.
    Other,
}

/// What the watcher does.
#[derive(Debug)]
pub enum WatchAction {
    /// It goes on watching.
    Continue,
    /// It ends, and the pipeline is replaced after this many milliseconds.
    Recover {
        /// The milliseconds.
        delay_ms: u64,
    },
    /// It ends, and the daemon stops.
    Shutdown(ShutdownReason),
    /// It ends.
    Exit,
}

impl WatchAction {
    /// Whether this is what is done about a report.
    pub open spec fn answers(self, message: WatchMessage) -> bool {
        match message {
            WatchMessage::Error { text, stream_or_resource } => if is_recoverable(
                text@,
                stream_or_resource,
            ) {
                self == (WatchAction::Recover { delay_ms: RECOVERY_DELAY_MS })
            } else {
                self matches WatchAction::Shutdown(ShutdownReason::FatalError(m)) && m@
                    == "Fatal error, exiting."@
            },
            WatchMessage::Eos => self matches WatchAction::Shutdown(
                ShutdownReason::FatalError(m),
            ) && m@ == "Capture pipeline unexpectedly hit EOS"@,
            _ => self is Continue,
        }
    }
}

/// Words in an error from which the pipeline can recover.
pub open spec fn recoverable_words() -> Seq<Seq<char>> {
    seq![
        "unhandled format"@,
        "pipewiresrc"@,
        "negotiation"@,
        "not-negotiated"@,
        "stream error"@,
        "No data received"@,
        "on_state_changed"@,
    ]
}

/// Whether the pipeline can recover from an error.
pub open spec fn is_recoverable(text: Seq<char>, stream_or_resource: bool) -> bool {
    stream_or_resource || exists|i: int|
        0 <= i < recoverable_words().len() && crate::text::has_text(
            text,
            #[trigger] recoverable_words()[i],
        )
}

/// Whether the pipeline can recover from an error.
pub fn recoverable(text: &str, stream_or_resource: bool) -> (r: bool)
    ensures
        r == is_recoverable(text@, stream_or_resource),
{
    let words: [&str; 7] = [
        "unhandled format",
        "pipewiresrc",
        "negotiation",
        "not-negotiated",
        "stream error",
        "No data received",
        "on_state_changed",
    ];
    let by_word: bool = contains_any(text, &words);
    proof {
        let said = recoverable_words();
        assert(words@.len() == said.len());
        assert forall|i: int| 0 <= i < words@.len() implies (#[trigger] words@[i])@ == said[i] by {}
        if by_word {
            let i = choose|i: int|
                0 <= i < words@.len() && crate::text::has_text(text@, (#[trigger] words@[i])@);
            assert(crate::text::has_text(text@, said[i]));
        }
        if exists|i: int| 0 <= i < said.len() && crate::text::has_text(text@, #[trigger] said[i]) {
            let i = choose|i: int|
                0 <= i < said.len() && crate::text::has_text(text@, #[trigger] said[i]);
            assert(crate::text::has_text(text@, words@[i]@));
        }
    }
    by_word || stream_or_resource
}

/// Whether no frame came for too long: none since the watch began, or none since the last
/// one. Times are in milliseconds since 1970; a last time of zero means none came yet.
pub open spec fn is_stalled(start_time_ms: u64, now_ms: u64, last_frame: u64) -> bool {
    if last_frame == 0 {
        now_ms - start_time_ms > STARTUP_STALL_MS
    } else {
        now_ms - last_frame > PIPELINE_STALL_S * 1000
    }
}

/// Watches one generation of the capture pipeline.
#[derive(Clone, Copy, Debug, PartialEq, Eq, Structural)]
pub struct BusWatcher {
    /// The generation.
    pub my_generation: u64,
    /// When the watch began, in milliseconds since 1970.
    pub start_time_ms: u64,
}

impl BusWatcher {
    /// Whether the watch goes on, before the next report is waited for: not once the daemon
    /// stops, and not over a generation that was replaced.
    pub open spec fn keeps_watching(self, cancelled: bool, generation: u64) -> bool {
        !cancelled && generation == self.my_generation
    }

    /// What is done before the next report is waited for.
    pub fn on_turn(&self, cancelled: bool, generation: u64) -> (r: WatchAction)
        ensures
            self.keeps_watching(cancelled, generation) ==> r is Continue,
            !self.keeps_watching(cancelled, generation) ==> r is Exit,
    {
        if cancelled || generation != self.my_generation {
            WatchAction::Exit
        } else {
            WatchAction::Continue
        }
    }

    /// What is done about a report.
    pub fn on_message(&self, message: &WatchMessage) -> (r: WatchAction)
        ensures
            r.answers(*message),
    {
        match message {
            WatchMessage::Error { text, stream_or_resource } => {
                if recoverable(text.as_str(), *stream_or_resource) {
                    WatchAction::Recover { delay_ms: RECOVERY_DELAY_MS }
                } else {
                    WatchAction::Shutdown(
                        ShutdownReason::FatalError("Fatal error, exiting.".to_owned()),
                    )
                }
            },
            WatchMessage::Eos => WatchAction::Shutdown(
                ShutdownReason::FatalError("Capture pipeline unexpectedly hit EOS".to_owned()),
            ),
            _ => WatchAction::Continue,
        }
    }

    /// What is done when no report comes for a second. Until the first frame came, the clock
    /// must not have been set back behind the start of the watch.
    pub fn on_silence(&self, now_ms: u64, last_frame: u64) -> (r: WatchAction)
        requires
            last_frame == 0 ==> self.start_time_ms <= now_ms,
        ensures
            is_stalled(self.start_time_ms, now_ms, last_frame) ==> r == (WatchAction::Recover {
                delay_ms: 0,
            }),
            !is_stalled(self.start_time_ms, now_ms, last_frame) ==> r is Continue,
    {
        let stalled: bool = if last_frame == 0 {
            now_ms - self.start_time_ms > STARTUP_STALL_MS
        } else {
            now_ms > last_frame && now_ms - last_frame > PIPELINE_STALL_S * 1000
        };
        if stalled {
            WatchAction::Recover { delay_ms: 0 }
        } else {
            WatchAction::Continue
        }
    }

    /// Why the daemon stops when the pipeline could not be replaced.
    pub fn recovery_failed(error: &str) -> (r: ShutdownReason)
        ensures
            r matches ShutdownReason::FatalError(m) && m@ == "Pipeline recovery failed: "@
                + error@,
    {
        ShutdownReason::FatalError(cat("Pipeline recovery failed: ", error))
    }
}

impl DaemonCore {
    /// Begins the watch over a generation of the capture pipeline.
    pub fn spawn_bus_watcher(my_generation: u64, start_time_ms: u64) -> (r: BusWatcher)
        ensures
            r == (BusWatcher { my_generation, start_time_ms }),
    {
        BusWatcher { my_generation, start_time_ms }
    }
}

/// Once a pipeline is being replaced, no watcher of it or of an older one goes on, and the
/// watcher of the new one does.
pub proof fn law_recovery_retires_watchers(
    before: DaemonCore,
    next_gen: u64,
    old_watcher: BusWatcher,
    new_watcher: BusWatcher,
)
    requires
        next_gen == before.generation + 1,
        old_watcher.my_generation <= before.generation,
        new_watcher.my_generation == next_gen,
    ensures
        !old_watcher.keeps_watching(false, next_gen),
        new_watcher.keeps_watching(false, next_gen),
{
}

/// A frame that came within the last seconds keeps the pipeline from counting as stalled.
pub proof fn law_recent_frame_is_no_stall(start_time_ms: u64, now_ms: u64, last_frame: u64)
    requires
        last_frame > 0,
        now_ms <= last_frame + PIPELINE_STALL_S * 1000,
    ensures
        !is_stalled(start_time_ms, now_ms, last_frame),
{
}

/// A starting pipeline may take five seconds for its first frame; a running one may take ten
/// seconds from one frame to the next.
pub proof fn law_stall_times(start_time_ms: u64, now_ms: u64, last_frame: u64)
    ensures
        last_frame == 0 ==> (is_stalled(start_time_ms, now_ms, last_frame) <==> now_ms
            > start_time_ms + 5_000),
        last_frame > 0 ==> (is_stalled(start_time_ms, now_ms, last_frame) <==> now_ms > last_frame
            + 10_000),
{
}

/// A pipeline that counts as stalled does so until a frame comes.
pub proof fn law_stall_lasts(start_time_ms: u64, now_ms: u64, later_ms: u64, last_frame: u64)
    requires
        now_ms <= later_ms,
        is_stalled(start_time_ms, now_ms, last_frame),
    ensures
        is_stalled(start_time_ms, later_ms, last_frame),
{
}

/// A watch ends when the daemon stops or its generation was replaced, and for no other reason.
pub proof fn law_watch_ends_for_a_reason(watcher: BusWatcher, cancelled: bool, generation: u64)
    ensures
        cancelled ==> !watcher.keeps_watching(cancelled, generation),
        generation != watcher.my_generation ==> !watcher.keeps_watching(cancelled, generation),
        !watcher.keeps_watching(cancelled, generation) ==> cancelled || generation
            != watcher.my_generation,
{
}

/// An error of the stream or of a resource can be recovered from whatever it says. Another one
/// can be exactly where it tells of the screen's source, of a failed agreement on a format, or
/// of a stream that broke off, wherever in its text it does so.
pub proof fn law_recoverable_errors(text: Seq<char>, a: Seq<char>, b: Seq<char>)
    ensures
        is_recoverable(text, true),
        is_recoverable(a + "unhandled format"@ + b, false),
        is_recoverable(a + "pipewiresrc"@ + b, false),
        is_recoverable(a + "negotiation"@ + b, false),
        is_recoverable(a + "not-negotiated"@ + b, false),
        is_recoverable(a + "stream error"@ + b, false),
        is_recoverable(a + "No data received"@ + b, false),
        is_recoverable(a + "on_state_changed"@ + b, false),
        is_recoverable(text, false) ==> crate::text::has_text(text, "unhandled format"@)
            || crate::text::has_text(text, "pipewiresrc"@) || crate::text::has_text(
            text,
            "negotiation"@,
        ) || crate::text::has_text(text, "not-negotiated"@) || crate::text::has_text(
            text,
            "stream error"@,
        ) || crate::text::has_text(text, "No data received"@) || crate::text::has_text(
            text,
            "on_state_changed"@,
        ),
{
    let words = recoverable_words();
    crate::text::law_text_is_found_where_it_stands(a, words[0], b);
    crate::text::law_text_is_found_where_it_stands(a, words[1], b);
    crate::text::law_text_is_found_where_it_stands(a, words[2], b);
    crate::text::law_text_is_found_where_it_stands(a, words[3], b);
    crate::text::law_text_is_found_where_it_stands(a, words[4], b);
    crate::text::law_text_is_found_where_it_stands(a, words[5], b);
    crate::text::law_text_is_found_where_it_stands(a, words[6], b);
}

/// The pipeline is replaced, half a second later, exactly after an error that can be recovered
/// from; after any other error and at the end of the stream the daemon stops as after a failure;
/// all else is let pass.
pub proof fn law_reports_are_answered(message: WatchMessage, r: WatchAction)
    requires
        r.answers(message),
    ensures
        message matches WatchMessage::Error { text, stream_or_resource } ==> (r is Recover <==> (
        stream_or_resource || is_recoverable(text@, false))),
        r matches WatchAction::Recover { delay_ms } ==> delay_ms == 500 && message is Error,
        r is Shutdown <==> (message is Eos || (message is Error && !(r is Recover))),
        r matches WatchAction::Shutdown(reason) ==> reason is FatalError,
        r is Continue <==> message is Warning || message is Other,
        !(r is Exit),
{
}

} // verus!
