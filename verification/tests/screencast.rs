use wayclip_daemon::daemon::DaemonCore;
use wayclip_daemon::error::WayclipError;
use wayclip_daemon::screencast::restore_token_path;

#[test]
fn token_comes_back() {
    let written = DaemonCore::save_restore_token(Some("abc-1"), Some("/home/me/.local/state")).unwrap().unwrap();
    assert_eq!(written.path, "/home/me/.local/state/wayclip/restore_token");
    assert_eq!(written.directory.as_deref(), Some("/home/me/.local/state/wayclip"));
    assert_eq!(DaemonCore::load_restore_token(Some(&written.token)).as_deref(), Some("abc-1"));
}

#[test]
fn tokens_that_are_none() {
    assert_eq!(DaemonCore::load_restore_token(None), None);
    assert_eq!(DaemonCore::load_restore_token(Some(" \n")), None);
    assert_eq!(DaemonCore::load_restore_token(Some(" t \n")).as_deref(), Some("t"));
    assert!(DaemonCore::save_restore_token(None, None).unwrap().is_none());
}

#[test]
fn state_directory_is_needed() {
    let message = "Couldnt get state directory (~/.local/state)";
    match restore_token_path(None) {
        Err(WayclipError::NotFound(m)) => assert_eq!(m, message),
        _ => panic!("an error was expected"),
    }
    match DaemonCore::save_restore_token(Some("t"), None) {
        Err(WayclipError::NotFound(m)) => assert_eq!(m, message),
        _ => panic!("an error was expected"),
    }
}

#[test]
fn first_stream_is_taken() {
    assert_eq!(DaemonCore::first_stream(&vec![71, 9]).unwrap(), "71");
    match DaemonCore::first_stream(&vec![]) {
        Err(WayclipError::Screencast(m)) => {
            assert_eq!(m, "Could not extract first stream in response")
        }
        _ => panic!("an error was expected"),
    }
}
