use wayclip_daemon::daemon::DaemonStatus;
use wayclip_daemon::settings::TraySettings;
use wayclip_daemon::tray::{MenuEntry, TrayAction, WayclipTray};

fn settings() -> TraySettings {
    TraySettings {
        enabled: true,
        show_logo: true,
        show_save_clip: true,
        show_restart: false,
        show_exit: true,
        show_status: true,
        show_stats: false,
    }
}

fn item(e: &MenuEntry) -> (&str, bool, bool, TrayAction) {
    match e {
        MenuEntry::Item { label, enabled, visible, action, .. } => {
            (label.as_str(), *enabled, *visible, *action)
        }
        MenuEntry::Separator => panic!("an item was expected"),
    }
}

#[test]
fn unwanted_tray_is_not_started() {
    assert!(WayclipTray::run_tray(TraySettings { enabled: false, ..settings() }).is_none());
    assert!(WayclipTray::run_tray(settings()).is_some());
}

#[test]
fn polling_follows_the_settings() {
    let t = WayclipTray::run_tray(settings()).unwrap();
    assert!(t.polls());
    let quiet = TraySettings { show_status: false, show_stats: false, ..settings() };
    assert!(!WayclipTray::run_tray(quiet).unwrap().polls());
}

#[test]
fn menu_before_the_first_look() {
    let t = WayclipTray::run_tray(settings()).unwrap();
    let menu = t.menu();
    assert_eq!(menu.len(), 8);
    assert_eq!(item(&menu[0]), ("Wayclip", false, true, TrayAction::Idle));
    assert!(matches!(menu[1], MenuEntry::Separator));
    assert_eq!(item(&menu[2]), ("Save Clip", true, true, TrayAction::SaveClip));
    assert_eq!(item(&menu[3]), ("Restart Daemon", true, false, TrayAction::Restart));
    assert_eq!(item(&menu[4]), ("Exit Tray & Daemon", true, true, TrayAction::Exit));
    assert!(matches!(menu[5], MenuEntry::Separator));
    assert_eq!(item(&menu[6]), ("Status: ", false, false, TrayAction::Idle));
    assert_eq!(item(&menu[7]), ("CPU:  • RAM: ", false, false, TrayAction::Idle));
}

#[test]
fn menu_after_a_look() {
    let mut t = WayclipTray::run_tray(settings()).unwrap();
    t.update(Some(DaemonStatus::Saving), "1.5%".to_string(), "80.0 MB".to_string());
    let menu = t.menu();
    assert_eq!(item(&menu[6]), ("Status: Saving", false, true, TrayAction::Idle));
    assert_eq!(item(&menu[7]), ("CPU: 1.5% • RAM: 80.0 MB", false, false, TrayAction::Idle));
    t.update(None, String::new(), String::new());
    assert_eq!(item(&t.menu()[6]).0, "Status: Inactive");
}

#[test]
fn names_and_files_of_the_tray() {
    let t = WayclipTray::run_tray(settings()).unwrap();
    assert_eq!(t.id(), "org.wayclip.Tray");
    assert_eq!(t.title(), "Wayclip");
    assert_eq!(t.icon_name("/src/d"), "/src/branding/svgs/wayclip.svg");
    assert_eq!(t.png_path("/src/d"), "/src/branding/pngs/wayclip-256x256-p8.png");
    assert!(WayclipTray::stops_itself(false));
    assert!(!WayclipTray::stops_itself(true));
}

#[test]
fn words_for_the_status() {
    let all = [
        (DaemonStatus::Active, "Active"),
        (DaemonStatus::Inactive, "Inactive"),
        (DaemonStatus::Saving, "Saving"),
        (DaemonStatus::Activating, "Activating"),
        (DaemonStatus::Deactivating, "Deactivating"),
        (DaemonStatus::Failed, "Failed"),
    ];
    for (status, word) in all {
        assert_eq!(status.name(), word);
        assert_eq!(format!("{:?}", status), word);
    }
}
