use wayclip_daemon::daemon::DaemonCore;
use wayclip_daemon::manager::{exit_code, ExitCause, ShutdownReason};
use wayclip_daemon::watcher::{recoverable, BusWatcher, WatchAction, WatchMessage};

fn watcher() -> BusWatcher {
    DaemonCore::spawn_bus_watcher(3, 1_000_000)
}

fn fatal(action: WatchAction) -> String {
    match action {
        WatchAction::Shutdown(ShutdownReason::FatalError(m)) => m,
        _ => panic!("a shutdown was expected"),
    }
}

#[test]
fn stale_watchers_end() {
    let w = watcher();
    assert!(matches!(w.on_turn(false, 3), WatchAction::Continue));
    assert!(matches!(w.on_turn(false, 4), WatchAction::Exit));
    assert!(matches!(w.on_turn(true, 3), WatchAction::Exit));
}

#[test]
fn errors_to_recover_from() {
    for text in [
        "unhandled format",
        "in pipewiresrc0",
        "negotiation problem",
        "not-negotiated (-4)",
        "stream error: x",
        "No data received",
        "on_state_changed()",
    ] {
        assert!(recoverable(text, false));
    }
    assert!(!recoverable("out of memory", false));
    assert!(recoverable("out of memory", true));
}

#[test]
fn reports_of_the_pipeline() {
    let w = watcher();
    let error = |text: &str, s| WatchMessage::Error { text: text.to_string(), stream_or_resource: s };
    assert!(matches!(
        w.on_message(&error("not-negotiated", false)),
        WatchAction::Recover { delay_ms: 500 }
    ));
    assert_eq!(fatal(w.on_message(&error("bug", false))), "Fatal error, exiting.");
    assert_eq!(fatal(w.on_message(&WatchMessage::Eos)), "Capture pipeline unexpectedly hit EOS");
    assert!(matches!(w.on_message(&WatchMessage::Warning), WatchAction::Continue));
    assert!(matches!(w.on_message(&WatchMessage::Other), WatchAction::Continue));
}

#[test]
fn stalls_at_the_start() {
    let w = watcher();
    assert!(matches!(w.on_silence(1_005_000, 0), WatchAction::Continue));
    assert!(matches!(w.on_silence(1_005_001, 0), WatchAction::Recover { delay_ms: 0 }));
}

#[test]
fn stalls_later_on() {
    let w = watcher();
    assert!(matches!(w.on_silence(1_110_000, 1_100_000), WatchAction::Continue));
    assert!(matches!(w.on_silence(1_110_001, 1_100_000), WatchAction::Recover { delay_ms: 0 }));
    assert!(matches!(w.on_silence(900_000, 1_100_000), WatchAction::Continue));
}

#[test]
fn failed_recovery_stops_the_daemon() {
    match BusWatcher::recovery_failed("no screen") {
        ShutdownReason::FatalError(m) => assert_eq!(m, "Pipeline recovery failed: no screen"),
        _ => panic!("an error was expected"),
    }
}

#[test]
fn codes_of_the_process() {
    assert_eq!(exit_code(&ExitCause::Interrupt), 0);
    assert_eq!(exit_code(&ExitCause::Terminate), 0);
    assert_eq!(exit_code(&ExitCause::Daemon(Some(ShutdownReason::TrayExit))), 0);
    let fatal = ShutdownReason::FatalError("x".to_string());
    assert_eq!(exit_code(&ExitCause::Daemon(Some(fatal))), 1);
    assert_eq!(exit_code(&ExitCause::Daemon(None)), 1);
}
