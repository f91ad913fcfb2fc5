use wayclip_daemon::desktop::{
    bindable_among, desktop_from_name, failure_text, session_from_name, BindAction, CommandOutput,
    DesktopEnvironmentManager, DesktopEnvironmentType, SessionType,
};
use wayclip_daemon::error::WayclipError;

const EXE: &str = "/usr/bin/wayclip-daemon";

fn manager(desktop: DesktopEnvironmentType) -> DesktopEnvironmentManager {
    DesktopEnvironmentManager { desktop, trigger_combo: "Alt+C".to_string() }
}

fn run(action: BindAction) -> (String, Vec<String>, String) {
    match action {
        BindAction::Run { program, arguments, description } => (program, arguments, description),
        _ => panic!("a program was expected"),
    }
}

#[test]
fn sessions_by_name() {
    assert_eq!(session_from_name("wayland"), SessionType::Wayland);
    assert_eq!(session_from_name("x11"), SessionType::X11);
    assert_eq!(session_from_name("xorg"), SessionType::X11);
    assert_eq!(session_from_name("tty"), SessionType::Unknown);
    assert_eq!(SessionType::default(), SessionType::Unknown);
}

#[test]
fn desktops_by_name() {
    assert_eq!(desktop_from_name("hyprland"), DesktopEnvironmentType::Hyprland);
    assert_eq!(desktop_from_name("gnome"), DesktopEnvironmentType::Gnome);
    assert_eq!(desktop_from_name("sway"), DesktopEnvironmentType::Sway);
    assert_eq!(desktop_from_name("kde"), DesktopEnvironmentType::Kde);
    assert_eq!(desktop_from_name("xfce"), DesktopEnvironmentType::Gnome);
    assert_eq!(DesktopEnvironmentType::default(), DesktopEnvironmentType::Unknown);
}

#[test]
fn environment_in_any_case() {
    let got = DesktopEnvironmentManager::get_env_session(Some("X11"), Some("KDE"));
    assert_eq!(got, (DesktopEnvironmentType::Kde, SessionType::X11));
    let got = DesktopEnvironmentManager::get_env_session(None, None);
    assert_eq!(got, (DesktopEnvironmentType::Gnome, SessionType::Wayland));
    let m = DesktopEnvironmentManager::new(None, Some("Hyprland"), "Alt+C".to_string());
    assert_eq!(m.desktop, DesktopEnvironmentType::Hyprland);
}

#[test]
fn programs_that_fail_are_explained() {
    let failed = |stderr: &str, stdout: &str, code| CommandOutput::Ran {
        success: false,
        code,
        stderr: stderr.as_bytes().to_vec(),
        stdout: stdout.as_bytes().to_vec(),
    };
    let words = |out: &CommandOutput| match DesktopEnvironmentManager::run_command(out, "hyprctl") {
        Err(WayclipError::CLI(m)) => m,
        _ => panic!("an error was expected"),
    };
    assert_eq!(words(&failed(" bad \n", "out", Some(1))), "Command 'hyprctl' failed: bad");
    assert_eq!(words(&failed(" \n", " out ", Some(1))), "Command 'hyprctl' failed: out");
    assert_eq!(
        words(&failed("", "", Some(-11))),
        "Command 'hyprctl' failed: process exited with code Some(-11)"
    );
    assert_eq!(
        words(&failed("", "", None)),
        "Command 'hyprctl' failed: process exited with code None"
    );
    assert_eq!(
        words(&CommandOutput::NotRun("not found".to_string())),
        "Failed to execute 'hyprctl': not found"
    );
    let broken = CommandOutput::Ran {
        success: false,
        code: Some(2),
        stderr: vec![b'a', 0xff],
        stdout: vec![],
    };
    assert_eq!(words(&broken), "Command 'hyprctl' failed: a\u{fffd}");
    assert_eq!(failure_text("", "", Some(3)), "process exited with code Some(3)");
}

#[test]
fn programs_that_succeed_are_silent() {
    let out =
        CommandOutput::Ran { success: true, code: Some(0), stderr: vec![b'x'], stdout: vec![] };
    assert!(DesktopEnvironmentManager::run_command(&out, "x").is_ok());
}

#[test]
fn command_that_saves() {
    let m = manager(DesktopEnvironmentType::Sway);
    assert_eq!(
        m.get_trigger_command_string(EXE).unwrap(),
        "/usr/bin/wayclip-cli-linux daemon save"
    );
    match m.get_trigger_command_string("/") {
        Err(WayclipError::NotFound(e)) => assert_eq!(e, "No parent found"),
        _ => panic!("an error was expected"),
    }
}

#[test]
fn keys_on_hyprland() {
    let m = manager(DesktopEnvironmentType::Hyprland);
    let (program, arguments, description) = run(m.create_auto_bind(EXE).unwrap());
    assert_eq!(program, "hyprctl");
    assert_eq!(
        arguments,
        vec![
            "eval",
            "hl.bind(\"Alt + C\", hl.dsp.exec_cmd(\"/usr/bin/wayclip-cli-linux daemon save\"))"
        ]
    );
    assert_eq!(description, "hyprctl eval");
    let (program, arguments, description) = run(m.remove_auto_bind());
    assert_eq!(program, "hyprctl");
    assert_eq!(arguments, vec!["eval", "hl.unbind(\"Alt + C\")"]);
    assert_eq!(description, "hyprctl eval unbind");
}

#[test]
fn keys_on_sway() {
    let m = manager(DesktopEnvironmentType::Sway);
    let (program, arguments, _) = run(m.create_auto_bind(EXE).unwrap());
    assert_eq!(program, "swaymsg");
    assert_eq!(
        arguments,
        vec!["bindsym", "Alt+C", "exec", "/usr/bin/wayclip-cli-linux daemon save"]
    );
    let (_, arguments, description) = run(m.remove_auto_bind());
    assert_eq!(arguments, vec!["unbindsym", "Alt+C"]);
    assert_eq!(description, "swaymsg unbindsym");
}

#[test]
fn keys_on_other_desktops() {
    for d in [DesktopEnvironmentType::Gnome, DesktopEnvironmentType::Kde] {
        assert!(matches!(manager(d).create_auto_bind("/"), Ok(BindAction::GlobalHotkey)));
        assert!(matches!(manager(d).remove_auto_bind(), BindAction::GlobalHotkey));
    }
    let m = manager(DesktopEnvironmentType::Unknown);
    match m.create_auto_bind(EXE) {
        Ok(BindAction::Tell(t)) => assert_eq!(
            t,
            "No auto bind setup available for your desktop environment. Please bind Alt+C to \
             /usr/bin/wayclip-cli-linux daemon save"
        ),
        _ => panic!("words were expected"),
    }
    assert!(m.create_auto_bind("/").is_err());
    match m.remove_auto_bind() {
        BindAction::Tell(t) => {
            assert_eq!(t, "No auto bind removal available for your desktop environment")
        }
        _ => panic!("words were expected"),
    }
}

#[test]
fn registered_keys() {
    let gnome = DesktopEnvironmentType::Gnome;
    assert!(DesktopEnvironmentManager::needs_x11(gnome, SessionType::Wayland));
    assert!(!DesktopEnvironmentManager::needs_x11(gnome, SessionType::X11));
    assert!(DesktopEnvironmentManager::is_trigger(7, 7, true));
    assert!(!DesktopEnvironmentManager::is_trigger(7, 7, false));
    assert!(!DesktopEnvironmentManager::is_trigger(7, 8, true));
}

#[test]
fn other_desktops_on_wayland_bind_no_key() {
    for name in ["XFCE", "xfce", "Budgie:Other", "", "GNOME-Classic"] {
        let m = DesktopEnvironmentManager::new(Some("wayland"), Some(name), "Alt+C".to_string());
        assert_eq!(m.desktop, DesktopEnvironmentType::Unknown);
        assert!(matches!(m.create_auto_bind(EXE), Ok(BindAction::Tell(_))));
        assert!(matches!(m.remove_auto_bind(), BindAction::Tell(_)));
    }
    let m = DesktopEnvironmentManager::new(None, Some("XFCE"), "Alt+C".to_string());
    assert_eq!(m.desktop, DesktopEnvironmentType::Unknown);
}

#[test]
fn other_desktops_elsewhere_count_as_gnome() {
    for session in ["x11", "tty"] {
        let m = DesktopEnvironmentManager::new(Some(session), Some("XFCE"), "Alt+C".to_string());
        assert_eq!(m.desktop, DesktopEnvironmentType::Gnome);
        assert!(matches!(m.create_auto_bind(EXE), Ok(BindAction::GlobalHotkey)));
    }
}

#[test]
fn known_desktops_on_wayland_bind_a_key() {
    for (name, desktop) in [
        (Some("Hyprland"), DesktopEnvironmentType::Hyprland),
        (Some("GNOME"), DesktopEnvironmentType::Gnome),
        (Some("sway"), DesktopEnvironmentType::Sway),
        (Some("KDE"), DesktopEnvironmentType::Kde),
        (Some("ubuntu:GNOME"), DesktopEnvironmentType::Gnome),
        (Some("x:KDE:y"), DesktopEnvironmentType::Kde),
        (Some("sway:wlroots"), DesktopEnvironmentType::Sway),
        (None, DesktopEnvironmentType::Gnome),
    ] {
        let m = DesktopEnvironmentManager::new(Some("Wayland"), name, "Alt+C".to_string());
        assert_eq!(m.desktop, desktop);
        assert!(!matches!(m.create_auto_bind(EXE), Ok(BindAction::Tell(_))));
    }
}

#[test]
fn first_known_name_of_a_list_counts() {
    assert_eq!(bindable_among("a:kde:gnome"), Some(DesktopEnvironmentType::Kde));
    assert_eq!(bindable_among("a::b"), None);
    assert_eq!(bindable_among("gnome:"), Some(DesktopEnvironmentType::Gnome));
}

#[test]
fn std_lowers_ascii_letter_by_letter() {
    for c in (0u8..128).map(char::from) {
        assert_eq!(c.to_string().to_lowercase(), c.to_ascii_lowercase().to_string());
    }
}

#[test]
fn command_is_needed_where_one_is_run_or_told() {
    for (desktop, needed) in [
        (DesktopEnvironmentType::Hyprland, true),
        (DesktopEnvironmentType::Sway, true),
        (DesktopEnvironmentType::Unknown, true),
        (DesktopEnvironmentType::Gnome, false),
        (DesktopEnvironmentType::Kde, false),
    ] {
        assert_eq!(manager(desktop).needs_command(), needed);
    }
}
