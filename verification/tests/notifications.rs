use wayclip_daemon::notifications::{
    NotificationEvent, NotificationManager, NotificationSound, Urgency,
};
use wayclip_daemon::settings::{MessageNotification, NotificationSettings, SoundsNotification};

fn settings(on: bool) -> NotificationSettings {
    NotificationSettings {
        message: MessageNotification {
            on_daemon_start: on,
            on_daemon_stop: on,
            on_save_success: on,
            on_save_error: on,
        },
        sounds: SoundsNotification { on_save_success: on, on_save_error: on },
    }
}

#[test]
fn summaries() {
    assert_eq!(NotificationEvent::DaemonStop.get_summary(), "Daemon has stopped");
    assert_eq!(NotificationEvent::DaemonStart.get_summary(), "Daemon has started");
    assert_eq!(NotificationEvent::SaveError.get_summary(), "Error saving clip");
    assert_eq!(NotificationEvent::SaveSuccess.get_summary(), "Saved new clip");
    assert_eq!(NotificationEvent::Test.get_summary(), "A test notification");
}

#[test]
fn bodies() {
    let body = |e: NotificationEvent| e.get_body("x.mp4".to_string());
    assert_eq!(
        body(NotificationEvent::SaveSuccess),
        "A new clip was saved succesfully: x.mp4"
    );
    assert_eq!(
        body(NotificationEvent::SaveError),
        "Error occurred while saving clip: x.mp4"
    );
    assert_eq!(
        body(NotificationEvent::DaemonStart),
        "The Wayclip daemon was started and is currently recording"
    );
    assert_eq!(
        body(NotificationEvent::DaemonStop),
        "The Wayclip daemon has stopped recording"
    );
    assert_eq!(body(NotificationEvent::Test), "Test: x.mp4");
}

#[test]
fn timeouts_and_urgencies() {
    assert_eq!(NotificationEvent::DaemonStop.get_timeout_ms(), 1500);
    assert_eq!(NotificationEvent::DaemonStart.get_timeout_ms(), 1500);
    assert_eq!(NotificationEvent::SaveError.get_timeout_ms(), 4000);
    assert_eq!(NotificationEvent::SaveSuccess.get_timeout_ms(), 1000);
    assert_eq!(NotificationEvent::Test.get_timeout_ms(), 500);
    for e in [
        NotificationEvent::SaveSuccess,
        NotificationEvent::DaemonStart,
        NotificationEvent::DaemonStop,
        NotificationEvent::Test,
    ] {
        assert_eq!(e.get_urgency(), Urgency::Normal);
    }
    assert_eq!(NotificationEvent::SaveError.get_urgency(), Urgency::Critical);
    assert_eq!(Urgency::Normal.level(), 1);
    assert_eq!(Urgency::Critical.level(), 2);
}

#[test]
fn files_of_icons_and_sounds() {
    assert_eq!(
        NotificationEvent::Test.get_icon("/src/wayclip-daemon"),
        "/src/branding/svgs/wayclip.svg"
    );
    assert_eq!(
        NotificationSound::Success.get_sound_path("/src/wayclip-daemon"),
        "/src/wayclip-daemon/static/sounds/success.wav"
    );
    assert_eq!(
        NotificationSound::Error.get_sound_path("/src/wayclip-daemon"),
        "/src/wayclip-daemon/static/sounds/error.wav"
    );
}

#[test]
fn events_follow_the_settings() {
    let all = settings(true);
    let none = settings(false);
    let r = NotificationManager::process_event(NotificationEvent::SaveError, all);
    assert_eq!(r.sound, Some(NotificationSound::Error));
    assert!(r.message);
    let r = NotificationManager::process_event(NotificationEvent::SaveSuccess, all);
    assert_eq!(r.sound, Some(NotificationSound::Success));
    assert!(r.message);
    for e in [NotificationEvent::DaemonStart, NotificationEvent::DaemonStop] {
        let r = NotificationManager::process_event(e, all);
        assert_eq!(r.sound, None);
        assert!(r.message);
        let r = NotificationManager::process_event(e, none);
        assert!(!r.message);
    }
    let r = NotificationManager::process_event(NotificationEvent::SaveError, none);
    assert_eq!(r.sound, None);
    assert!(!r.message);
}

#[test]
fn test_event_is_silent() {
    let r = NotificationManager::process_event(NotificationEvent::Test, settings(true));
    assert_eq!(r.sound, None);
    assert!(!r.message);
}

#[test]
fn message_of_an_event() {
    let n = NotificationManager::send_notification(
        NotificationEvent::SaveError,
        "disk full".to_string(),
        "/src/d",
    );
    assert_eq!(n.app_name, "Wayclip");
    assert_eq!(n.replaces_id, 0);
    assert_eq!(n.icon, "/src/branding/svgs/wayclip.svg");
    assert_eq!(n.summary, "Error saving clip");
    assert_eq!(n.body, "Error occurred while saving clip: disk full");
    assert_eq!(n.urgency, 2);
    assert_eq!(n.timeout_ms, 4000);
}
