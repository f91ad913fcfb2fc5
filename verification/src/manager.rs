//! How the daemon is known to the system, and how its process ends.

use vstd::prelude::*;

verus! {

/// The service under which the service manager runs the daemon.
pub const DEFAULT_SYSTEMD_SERVICE: &'static str = "wayclip-daemon.service";

/// The name of the daemon on the session bus.
pub const DEFAULT_DBUS_SERVICE: &'static str = "org.wayclip.Daemon";

/// How the service manager treats jobs that are under way.
pub const DEFAULT_MODE: &'static str = "replace";

/// The object of the daemon on the session bus.
pub const DEFAULT_INTERFACE_PATH: &'static str = "/org/wayclip/Daemon";

/// Why the daemon stops by itself.
#[derive(Debug)]
pub enum ShutdownReason {
    /// The user stopped it from the tray.
    TrayExit,
    /// It cannot go on, for this reason.
    FatalError(String),
}

/// What ends the process.
#[derive(Debug)]
pub enum ExitCause {
    /// The terminal asks for it.
    Interrupt,
    /// The system asks for it.
    Terminate,
    /// The daemon itself asks for it, or can ask no more.
    Daemon(Option<ShutdownReason>),
}

/// The code with which the process ends: zero unless something went wrong.
pub open spec fn code_of(cause: ExitCause) -> i32 {
    match cause {
        ExitCause::Interrupt => 0,
        ExitCause::Terminate => 0,
        ExitCause::Daemon(Some(ShutdownReason::TrayExit)) => 0,
        ExitCause::Daemon(Some(ShutdownReason::FatalError(_))) => 1,
        ExitCause::Daemon(None) => 1,
    }
}

/// The code with which the process ends.
pub fn exit_code(cause: &ExitCause) -> (r: i32)
    ensures
        r == code_of(*cause),
{
    match cause {
        ExitCause::Interrupt => 0,
        ExitCause::Terminate => 0,
        ExitCause::Daemon(reason) => match reason {
            Some(ShutdownReason::TrayExit) => 0,
            Some(ShutdownReason::FatalError(_)) => 1,
            None => 1,
        },
    }
}

/// The process ends well where it was asked to end, by the terminal, the system or the tray; it
/// ends badly where the daemon cannot go on or is lost.
pub proof fn law_exit_code_tells_failure(cause: ExitCause)
    ensures
        code_of(cause) == 0 || code_of(cause) == 1,
        code_of(cause) == 1 <==> (cause matches ExitCause::Daemon(reason) && !(
        reason matches Some(ShutdownReason::TrayExit))),
{
}

} // verus!
