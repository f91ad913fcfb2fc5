use wayclip_daemon::desktop::{DesktopEnvironmentType, SessionType};
use wayclip_daemon::error::WayclipError;
use wayclip_daemon::window::{
    comm_path_in, find_sway_focused, parse_gnome_title, probe_for, read_window, sway_comm_path,
    window_id, HyprctlActiveWindow, ProbeKind, SwayNode, WindowProbe, WindowQuery, WindowReading,
};

fn leaf(name: &str, focused: bool) -> SwayNode {
    SwayNode {
        name: Some(name.to_string()),
        app_id: None,
        pid: None,
        fullscreen_mode: None,
        focused: Some(focused),
        nodes: None,
        floating_nodes: None,
    }
}

fn tree(nodes: Vec<SwayNode>, floating: Vec<SwayNode>) -> SwayNode {
    SwayNode { nodes: Some(nodes), floating_nodes: Some(floating), ..leaf("root", false) }
}

fn read(probe: WindowProbe) -> Result<WindowReading, WayclipError> {
    read_window(&probe, DesktopEnvironmentType::Kde, SessionType::Wayland)
}

fn failure(probe: WindowProbe) -> String {
    match read(probe) {
        Err(WayclipError::Discovery(m)) => m,
        _ => panic!("an error was expected"),
    }
}

fn out(s: &str) -> Option<Vec<u8>> {
    Some(s.as_bytes().to_vec())
}

#[test]
fn helpers_of_the_desktops() {
    let x11 = SessionType::X11;
    let wayland = SessionType::Wayland;
    assert_eq!(probe_for(DesktopEnvironmentType::Hyprland, wayland), ProbeKind::Hyprland);
    assert_eq!(probe_for(DesktopEnvironmentType::Sway, x11), ProbeKind::Sway);
    assert_eq!(probe_for(DesktopEnvironmentType::Gnome, x11), ProbeKind::Gnome);
    assert_eq!(probe_for(DesktopEnvironmentType::Kde, x11), ProbeKind::X11);
    assert_eq!(probe_for(DesktopEnvironmentType::Kde, wayland), ProbeKind::Unsupported);
}

#[test]
fn questions_to_the_helpers() {
    let q = WindowQuery::HyprlandWindow.command();
    assert_eq!((q.program.as_str(), q.arguments.len()), ("hyprctl", 2));
    let q = WindowQuery::SwayTree.command();
    assert_eq!(q.program, "swaymsg");
    assert_eq!(q.arguments, vec!["-t", "get_tree"]);
    let q = WindowQuery::GnomeTitle.command();
    assert_eq!(q.program, "gdbus");
    assert_eq!(q.arguments[7], "org.gnome.Shell.Extensions.WindowsExt.FocusTitle");
    let q = WindowQuery::GnomePid.command();
    assert_eq!(q.arguments[7], "org.gnome.Shell.Extensions.WindowsExt.FocusPID");
    assert_eq!(q.arguments[3], "org.gnome.Shell");
    let q = WindowQuery::FocusedId.command();
    assert_eq!(q.arguments, vec!["getwindowfocus"]);
    let q = WindowQuery::NameOf("7".to_string()).command();
    assert_eq!((q.program.as_str(), q.arguments), ("xdotool", vec!["getwindowname".to_string(), "7".to_string()]));
    let q = WindowQuery::PidOf("7".to_string()).command();
    assert_eq!(q.arguments, vec!["-id", "7", "_NET_WM_PID"]);
    let q = WindowQuery::StateOf("7".to_string()).command();
    assert_eq!(q.arguments, vec!["-id", "7", "_NET_WM_STATE"]);
}

#[test]
fn active_node_in_a_tree() {
    let root = tree(vec![leaf("a", false), tree(vec![leaf("b", true)], vec![])], vec![leaf("c", true)]);
    assert_eq!(find_sway_focused(&root).unwrap().name.as_deref(), Some("b"));
    let root = tree(vec![leaf("a", false)], vec![leaf("c", true)]);
    assert_eq!(find_sway_focused(&root).unwrap().name.as_deref(), Some("c"));
    assert!(find_sway_focused(&tree(vec![], vec![])).is_none());
    let mut root = tree(vec![leaf("a", true)], vec![]);
    root.focused = Some(true);
    assert_eq!(find_sway_focused(&root).unwrap().name.as_deref(), Some("root"));
}

#[test]
fn window_on_hyprland() {
    let w = |fullscreen| HyprctlActiveWindow {
        fullscreen,
        title: "T".to_string(),
        class: "c".to_string(),
    };
    let r = read(WindowProbe::Hyprland(Some(w(1)))).unwrap();
    assert_eq!((r.title.as_deref(), r.process.as_deref(), r.confidence), (Some("T"), Some("c"), 80));
    assert_eq!(read(WindowProbe::Hyprland(Some(w(2)))).unwrap().confidence, 60);
    assert_eq!(failure(WindowProbe::Hyprland(None)), "hyprctl activewindow failed");
}

#[test]
fn helpers_that_fail_themselves() {
    match read(WindowProbe::NotRun("no such file".to_string())) {
        Err(WayclipError::Io(m)) => assert_eq!(m, "no such file"),
        _ => panic!("an error was expected"),
    }
    match read(WindowProbe::Unreadable("EOF".to_string())) {
        Err(WayclipError::Json(m)) => assert_eq!(m, "EOF"),
        _ => panic!("an error was expected"),
    }
}

#[test]
fn title_and_program_in_one() {
    let w = HyprctlActiveWindow {
        fullscreen: 0,
        title: "Game".to_string(),
        class: "game".to_string(),
    };
    let r = read(WindowProbe::Hyprland(Some(w))).unwrap();
    assert_eq!(r.combined_text().as_deref(), Some("Game game"));
    let mut r = r;
    r.process = None;
    assert_eq!(r.combined_text(), None);
}

#[test]
fn window_on_sway() {
    let mut node = leaf("Doom", true);
    node.pid = Some(42);
    node.fullscreen_mode = Some(1);
    assert_eq!(sway_comm_path(&node).as_deref(), Some("/proc/42/comm"));
    let r = read(WindowProbe::Sway(Some(node), Some("doom\n".to_string()))).unwrap();
    assert_eq!((r.title.as_deref(), r.process.as_deref(), r.confidence), (Some("Doom"), Some("doom"), 80));
    let mut node = leaf("Doom", true);
    node.app_id = Some("app".to_string());
    node.pid = Some(42);
    assert_eq!(sway_comm_path(&node), None);
    let r = read(WindowProbe::Sway(Some(node), None)).unwrap();
    assert_eq!((r.process.as_deref(), r.confidence), (Some("app"), 60));
    assert_eq!(failure(WindowProbe::Sway(None, None)), "swaymsg get_tree failed");
    assert_eq!(
        failure(WindowProbe::Sway(Some(leaf("x", false)), None)),
        "no focused sway node found"
    );
}

#[test]
fn window_on_gnome() {
    assert_eq!(parse_gnome_title(" ('My Game',)\n"), "My Game',");
    assert_eq!(parse_gnome_title("('My Game')"), "My Game");
    let gnome = |title, pid, comm: Option<&str>| WindowProbe::Gnome {
        title,
        pid,
        comm: comm.map(str::to_string),
    };
    let r = read(gnome(out("('T')"), out("(77)"), Some(" game \n"))).unwrap();
    assert_eq!((r.title.as_deref(), r.process.as_deref(), r.confidence), (Some("T"), Some("game"), 60));
    assert_eq!(comm_path_in(&out("(uint32)")).as_deref(), Some("/proc/32/comm"));
    assert_eq!(comm_path_in(&out("99999999999")), None);
    assert_eq!(comm_path_in(&Some(vec![0xff])), None);
    let r = read(gnome(out("('')"), out("(77)"), Some("g"))).unwrap();
    assert_eq!(r.title, None);
    let message = "gnome window detection produced no data (is the WindowsExt shell extension \
                   installed?)";
    assert_eq!(failure(gnome(out("('')"), out("()"), Some("g"))), message);
    assert_eq!(failure(gnome(None, None, None)), message);
}

#[test]
fn window_on_x11() {
    let probe = WindowProbe::X11 {
        focus: out("123\n"),
        title: out(" T \n"),
        pid: out("_NET_WM_PID(CARDINAL) = 9"),
        comm: Some("g\n".to_string()),
        state: out("_NET_WM_STATE(ATOM) = _NET_WM_STATE_FULLSCREEN"),
    };
    let r = read(probe).unwrap();
    assert_eq!((r.title.as_deref(), r.process.as_deref(), r.confidence), (Some("T"), Some("g"), 80));
    assert_eq!(window_id(&out("123\n")).as_deref(), Some("123"));
    let bare = |focus| WindowProbe::X11 { focus, title: None, pid: None, comm: None, state: None };
    let r = read(bare(out("1"))).unwrap();
    assert_eq!((r.title, r.process, r.confidence), (None, None, 60));
    assert_eq!(failure(bare(None)), "xdotool getwindowfocus failed");
    assert_eq!(failure(bare(Some(vec![0xc0]))), "xdotool getwindowfocus failed");
}

#[test]
fn desktop_without_helpers() {
    assert_eq!(
        failure(WindowProbe::Unsupported),
        "unsupported desktop environment: Kde (Wayland)"
    );
}
