//! What the helper programs of a desktop tell of the active window.

use crate::bytes::strict;
use crate::desktop::{DesktopEnvironmentType, SessionType};
use crate::error::WayclipError;
use crate::text::{
    cat, contains, decimal_text, is_empty, keep_digits, parse_up_to, trim, trim_set, TrimSet,
};
use vstd::prelude::*;

verus! {

/// How sure a game is that was told by its window, in hundredths.
pub const WINDOW_CONFIDENCE: u32 = 60;

/// How much surer a game is whose window fills the screen, in hundredths.
pub const FULLSCREEN_BONUS: u32 = 20;

/// The active window, as Hyprland describes it.
#[derive(Debug)]
pub struct HyprctlActiveWindow {
    /// Whether it fills the screen.
    pub fullscreen: u32,
    /// Its title.
    pub title: String,
    /// The program that it belongs to.
    pub class: String,
}

/// A node in the tree of windows, as Sway describes it.
#[derive(Debug)]
pub struct SwayNode {
    /// Its title.
    pub name: Option<String>,
    /// The program that it belongs to.
    pub app_id: Option<String>,
    /// The process that it belongs to.
    pub pid: Option<u32>,
    /// Whether it fills the screen.
    pub fullscreen_mode: Option<i32>,
    /// Whether it is the active one.
    pub focused: Option<bool>,
    /// The nodes below it.
    pub nodes: Option<Vec<SwayNode>>,
    /// The floating nodes below it.
    pub floating_nodes: Option<Vec<SwayNode>>,
}

/// The active node in the tree of this root: the root itself, else the first one below its
/// nodes, else the first one below its floating nodes.
pub open spec fn focused_node(node: SwayNode) -> Option<SwayNode>
    decreases node,
{
    if node.focused == Some(true) {
        Some(node)
    } else {
        let tiled = match node.nodes {
            Some(list) => focused_among(list@),
            None => None,
        };
        match tiled {
            Some(found) => Some(found),
            None => match node.floating_nodes {
                Some(list) => focused_among(list@),
                None => None,
            },
        }
    }
}

/// The first active node in the trees of these roots.
pub open spec fn focused_among(list: Seq<SwayNode>) -> Option<SwayNode>
    decreases list,
{
    if list.len() == 0 {
        None
    } else {
        match focused_node(list[0]) {
            Some(found) => Some(found),
            None => focused_among(list.drop_first()),
        }
    }
}

/// The active node in the tree of this root.
pub fn find_sway_focused(node: &SwayNode) -> (r: Option<&SwayNode>)
    ensures
        match (r, focused_node(*node)) {
            (Some(a), Some(b)) => *a == b,
            (None, None) => true,
            _ => false,
        },
    decreases *node,
{
    if let Some(true) = node.focused {
        return Some(node);
    }
    if let Some(list) = &node.nodes {
        let mut i: usize = 0;
        assert(list@.skip(0) =~= list@);
        while i < list.len()
            invariant
                node.nodes == Some(*list),
                i <= list@.len(),
                focused_among(list@) == focused_among(list@.skip(i as int)),
                node.focused != Some(true),
            decreases list@.len() - i,
        {
            proof {
                assert(decreases_to!(*node => node.nodes->0@[i as int]));
            }
            let found: Option<&SwayNode> = find_sway_focused(&list[i]);
            if found.is_some() {
                return found;
            }
            assert(list@.skip(i as int).drop_first() =~= list@.skip(i + 1));
            i = i + 1;
        }
    }
    if let Some(list) = &node.floating_nodes {
        let mut i: usize = 0;
        assert(list@.skip(0) =~= list@);
        while i < list.len()
            invariant
                node.floating_nodes == Some(*list),
                i <= list@.len(),
                focused_among(list@) == focused_among(list@.skip(i as int)),
                node.focused != Some(true),
                node.nodes matches Some(tiled) ==> focused_among(tiled@) is None,
            decreases list@.len() - i,
        {
            proof {
                assert(decreases_to!(*node => node.floating_nodes->0@[i as int]));
            }
            let found: Option<&SwayNode> = find_sway_focused(&list[i]);
            if found.is_some() {
                return found;
            }
            assert(list@.skip(i as int).drop_first() =~= list@.skip(i + 1));
            i = i + 1;
        }
    }
    None
}

/// What the helper programs told of the active window.
#[derive(Debug)]
pub enum WindowProbe {
    /// The helper could not be run, for this reason.
    NotRun(String),
    /// What the helper said could not be read, for this reason.
    Unreadable(String),
    /// Hyprland's window, unless the helper reported a failure.
    Hyprland(Option<HyprctlActiveWindow>),
    /// Sway's tree, unless the helper reported a failure, and the name of the active
    /// window's process, where it was looked up.
    Sway(Option<SwayNode>, Option<String>),
    /// What GNOME's helper said, where it reported success.
    Gnome {
        /// The title.
        title: Option<Vec<u8>>,
        /// The process.
        pid: Option<Vec<u8>>,
        /// The name of the process, where it was looked up.
        comm: Option<String>,
    },
    /// What the helpers for X11 said, where they reported success.
    X11 {
        /// The active window.
        focus: Option<Vec<u8>>,
        /// Its title.
        title: Option<Vec<u8>>,
        /// Its process.
        pid: Option<Vec<u8>>,
        /// The name of the process, where it was looked up.
        comm: Option<String>,
        /// The states that it is in.
        state: Option<Vec<u8>>,
    },
    /// There is no helper for the desktop.
    Unsupported,
}

/// Which helpers a desktop has.
#[derive(Clone, Copy, Debug, PartialEq, Eq, Structural)]
pub enum ProbeKind {
    /// That of Hyprland.
    Hyprland,
    /// That of Sway.
    Sway,
    /// That of GNOME.
    Gnome,
    /// Those for X11.
    X11,
    /// None.
    Unsupported,
}

/// Which helpers tell of the active window on this desktop.
pub open spec fn helper_for(desktop: DesktopEnvironmentType, session: SessionType) -> ProbeKind {
    match desktop {
        DesktopEnvironmentType::Hyprland => ProbeKind::Hyprland,
        DesktopEnvironmentType::Sway => ProbeKind::Sway,
        DesktopEnvironmentType::Gnome => ProbeKind::Gnome,
        _ => if session is X11 {
            ProbeKind::X11
        } else {
            ProbeKind::Unsupported
        },
    }
}

/// Which helpers tell of the active window on this desktop.
pub fn probe_for(desktop: DesktopEnvironmentType, session: SessionType) -> (r: ProbeKind)
    ensures
        r == helper_for(desktop, session),
{
    match desktop {
        DesktopEnvironmentType::Hyprland => ProbeKind::Hyprland,
        DesktopEnvironmentType::Sway => ProbeKind::Sway,
        DesktopEnvironmentType::Gnome => ProbeKind::Gnome,
        _ => if session == SessionType::X11 {
            ProbeKind::X11
        } else {
            ProbeKind::Unsupported
        },
    }
}

/// A helper program with its arguments.
#[derive(Debug)]
pub struct HelperCommand {
    /// The program.
    pub program: String,
    /// Its arguments.
    pub arguments: Vec<String>,
}

/// A question to a helper program.
#[derive(Debug)]
pub enum WindowQuery {
    /// Hyprland's active window.
    HyprlandWindow,
    /// Sway's tree of windows.
    SwayTree,
    /// The title of GNOME's active window.
    GnomeTitle,
    /// The process of GNOME's active window.
    GnomePid,
    /// The active window on X11.
    FocusedId,
    /// The title of this window on X11.
    NameOf(String),
    /// The process of this window on X11.
    PidOf(String),
    /// The states of this window on X11.
    StateOf(String),
}

/// The arguments with which the method of GNOME's helper is called.
pub open spec fn gnome_arguments(method: Seq<char>) -> Seq<Seq<char>> {
    seq![
        "call"@,
        "--session"@,
        "--dest"@,
        "org.gnome.Shell"@,
        "--object-path"@,
        "/org/gnome/Shell/Extensions/WindowsExt"@,
        "--method"@,
        method,
    ]
}

impl WindowQuery {
    /// The program that answers the question.
    pub open spec fn program(self) -> Seq<char> {
        match self {
            WindowQuery::HyprlandWindow => "hyprctl"@,
            WindowQuery::SwayTree => "swaymsg"@,
            WindowQuery::GnomeTitle => "gdbus"@,
            WindowQuery::GnomePid => "gdbus"@,
            WindowQuery::FocusedId => "xdotool"@,
            WindowQuery::NameOf(_) => "xdotool"@,
            WindowQuery::PidOf(_) => "xprop"@,
            WindowQuery::StateOf(_) => "xprop"@,
        }
    }

    /// The arguments with which the program is asked.
    pub open spec fn arguments(self) -> Seq<Seq<char>> {
        match self {
            WindowQuery::HyprlandWindow => seq!["activewindow"@, "-j"@],
            WindowQuery::SwayTree => seq!["-t"@, "get_tree"@],
            WindowQuery::GnomeTitle => gnome_arguments(
                "org.gnome.Shell.Extensions.WindowsExt.FocusTitle"@,
            ),
            WindowQuery::GnomePid => gnome_arguments(
                "org.gnome.Shell.Extensions.WindowsExt.FocusPID"@,
            ),
            WindowQuery::FocusedId => seq!["getwindowfocus"@],
            WindowQuery::NameOf(id) => seq!["getwindowname"@, id@],
            WindowQuery::PidOf(id) => seq!["-id"@, id@, "_NET_WM_PID"@],
            WindowQuery::StateOf(id) => seq!["-id"@, id@, "_NET_WM_STATE"@],
        }
    }

    /// The program that answers the question, with its arguments.
    pub fn command(&self) -> (r: HelperCommand)
        ensures
            r.program@ == self.program(),
            crate::text::texts_view(r.arguments@) == self.arguments(),
    {
        let mut a: Vec<String> = Vec::new();
        let program: &str = match self {
            WindowQuery::HyprlandWindow => {
                a.push("activewindow".to_owned());
                a.push("-j".to_owned());
                "hyprctl"
            },
            WindowQuery::SwayTree => {
                a.push("-t".to_owned());
                a.push("get_tree".to_owned());
                "swaymsg"
            },
            WindowQuery::GnomeTitle => {
                a = make_gnome_arguments("org.gnome.Shell.Extensions.WindowsExt.FocusTitle");
                "gdbus"
            },
            WindowQuery::GnomePid => {
                a = make_gnome_arguments("org.gnome.Shell.Extensions.WindowsExt.FocusPID");
                "gdbus"
            },
            WindowQuery::FocusedId => {
                a.push("getwindowfocus".to_owned());
                "xdotool"
            },
            WindowQuery::NameOf(id) => {
                a.push("getwindowname".to_owned());
                a.push(id.clone());
                "xdotool"
            },
            WindowQuery::PidOf(id) => {
                a.push("-id".to_owned());
                a.push(id.clone());
                a.push("_NET_WM_PID".to_owned());
                "xprop"
            },
            WindowQuery::StateOf(id) => {
                a.push("-id".to_owned());
                a.push(id.clone());
                a.push("_NET_WM_STATE".to_owned());
                "xprop"
            },
        };
        assert(crate::text::texts_view(a@) =~= self.arguments());
        HelperCommand { program: program.to_owned(), arguments: a }
    }
}

fn make_gnome_arguments(method: &str) -> (r: Vec<String>)
    ensures
        crate::text::texts_view(r@) == gnome_arguments(method@),
{
    let mut r: Vec<String> = Vec::new();
    r.push("call".to_owned());
    r.push("--session".to_owned());
    r.push("--dest".to_owned());
    r.push("org.gnome.Shell".to_owned());
    r.push("--object-path".to_owned());
    r.push("/org/gnome/Shell/Extensions/WindowsExt".to_owned());
    r.push("--method".to_owned());
    r.push(method.to_owned());
    assert(crate::text::texts_view(r@) =~= gnome_arguments(method@));
    r
}

/// What a helper said, if it said something and that is a text.
pub open spec fn said(out: Option<Vec<u8>>) -> Option<Seq<char>> {
    match out {
        Some(bytes) => if vstd::utf8::valid_utf8(bytes@) {
            Some(vstd::utf8::decode_utf8(bytes@))
        } else {
            None
        },
        None => None,
    }
}

fn output_text(out: &Option<Vec<u8>>) -> (r: Option<String>)
    ensures
        crate::text::text_option(r) == said(*out),
{
    match out {
        Some(bytes) => strict(bytes.as_slice()),
        None => None,
    }
}

/// A text without the white space round it.
pub open spec fn bare(s: Seq<char>) -> Seq<char> {
    crate::text::trimmed(s, TrimSet::WhiteSpace)
}

/// The title in the answer of GNOME's helper, without the brackets and quotes round it.
pub open spec fn gnome_title(s: Seq<char>) -> Seq<char> {
    crate::text::trimmed(
        bare(
            crate::text::trimmed(
                crate::text::trimmed(bare(s), TrimSet::Only('(')),
                TrimSet::Only(')'),
            ),
        ),
        TrimSet::Only('\''),
    )
}

/// The title in the answer of GNOME's helper.
pub fn parse_gnome_title(s: &str) -> (r: String)
    ensures
        r@ == gnome_title(s@),
{
    let opened: String = trim_set(trim(s).as_str(), TrimSet::Only('('));
    let closed: String = trim_set(opened.as_str(), TrimSet::Only(')'));
    trim_set(trim(closed.as_str()).as_str(), TrimSet::Only('\''))
}

/// The process in the answer of a helper: the number that its digits make up.
pub open spec fn process_number(s: Seq<char>) -> Option<nat> {
    crate::text::parsed(crate::text::digits_only(s), u32::MAX as nat)
}

/// Where the name of a process stands.
pub open spec fn comm_file(pid: nat) -> Seq<char> {
    "/proc/"@ + crate::text::decimal(pid) + "/comm"@
}

fn make_comm_file(pid: u64) -> (r: String)
    ensures
        r@ == comm_file(pid as nat),
{
    cat(cat("/proc/", decimal_text(pid).as_str()).as_str(), "/comm")
}

/// Where the name of the process stands that a helper told, if it told one.
pub fn comm_path_in(out: &Option<Vec<u8>>) -> (r: Option<String>)
    ensures
        crate::text::text_option(r) == (match said(*out) {
            Some(s) => match process_number(s) {
                Some(pid) => Some(comm_file(pid)),
                None => None,
            },
            None => None,
        }),
{
    match output_text(out) {
        Some(s) => match parse_up_to(keep_digits(s.as_str()).as_str(), 0xffff_ffff) {
            Some(pid) => Some(make_comm_file(pid)),
            None => None,
        },
        None => None,
    }
}

/// Where the name of the active window's process stands, where Sway does not tell the
/// program itself.
pub fn sway_comm_path(root: &SwayNode) -> (r: Option<String>)
    ensures
        crate::text::text_option(r) == (match focused_node(*root) {
            Some(node) => match (node.app_id, node.pid) {
                (None, Some(pid)) => Some(comm_file(pid as nat)),
                _ => None,
            },
            None => None,
        }),
{
    match find_sway_focused(root) {
        Some(node) => match (&node.app_id, node.pid) {
            (None, Some(pid)) => Some(make_comm_file(pid as u64)),
            _ => None,
        },
        None => None,
    }
}

/// The active window that a helper for X11 told.
pub fn window_id(focus: &Option<Vec<u8>>) -> (r: Option<String>)
    ensures
        crate::text::text_option(r) == (match said(*focus) {
            Some(s) => Some(bare(s)),
            None => None,
        }),
{
    match output_text(focus) {
        Some(s) => Some(trim(s.as_str())),
        None => None,
    }
}

/// What is known of the active window.
pub struct ReadingView {
    /// Its title.
    pub title: Option<Seq<char>>,
    /// The program that it belongs to.
    pub process: Option<Seq<char>>,
    /// How sure a game is that is told by it, in hundredths.
    pub confidence: int,
}

/// What is known of the active window.
#[derive(Debug)]
pub struct WindowReading {
    /// Its title.
    pub title: Option<String>,
    /// The program that it belongs to.
    pub process: Option<String>,
    /// How sure a game is that is told by it, in hundredths.
    pub confidence: u32,
}

impl View for WindowReading {
    type V = ReadingView;

    open spec fn view(&self) -> ReadingView {
        ReadingView {
            title: crate::text::text_option(self.title),
            process: crate::text::text_option(self.process),
            confidence: self.confidence as int,
        }
    }
}

impl WindowReading {
    /// The title and the program, one after the other, if both are known.
    pub fn combined_text(&self) -> (r: Option<String>)
        ensures
            crate::text::text_option(r) == (match (self@.title, self@.process) {
                (Some(t), Some(p)) => Some(t + " "@ + p),
                _ => None,
            }),
    {
        match (&self.title, &self.process) {
            (Some(t), Some(p)) => Some(cat(cat(t.as_str(), " ").as_str(), p.as_str())),
            _ => None,
        }
    }
}

/// How sure a game is that is told by its window.
pub open spec fn sureness(fullscreen: bool) -> int {
    if fullscreen {
        WINDOW_CONFIDENCE + FULLSCREEN_BONUS
    } else {
        WINDOW_CONFIDENCE as int
    }
}

fn sure(fullscreen: bool) -> (r: u32)
    ensures
        r == sureness(fullscreen),
{
    if fullscreen {
        WINDOW_CONFIDENCE + FULLSCREEN_BONUS
    } else {
        WINDOW_CONFIDENCE
    }
}

/// The program of a process that a helper told, where the name of the process was found.
pub open spec fn looked_up(pid: Option<Seq<char>>, comm: Option<String>) -> Option<Seq<char>> {
    match (pid, comm) {
        (Some(s), Some(c)) => if process_number(s) is Some {
            Some(bare(c@))
        } else {
            None
        },
        _ => None,
    }
}

fn look_up(pid: &Option<Vec<u8>>, comm: &Option<String>) -> (r: Option<String>)
    ensures
        crate::text::text_option(r) == looked_up(said(*pid), *comm),
{
    match (comm_path_in(pid), comm) {
        (Some(_), Some(c)) => Some(trim(c.as_str())),
        _ => None,
    }
}

/// Why the active window cannot be told.
pub enum WindowFault {
    /// The helper could not be run.
    Io(Seq<char>),
    /// What the helper said could not be read.
    Json(Seq<char>),
    /// The helpers told no window.
    Discovery(Seq<char>),
}

impl WindowFault {
    /// Whether an error says this.
    pub open spec fn is_told_by(self, e: WayclipError) -> bool {
        match (self, e) {
            (WindowFault::Io(why), WayclipError::Io(m)) => m@ == why,
            (WindowFault::Json(why), WayclipError::Json(m)) => m@ == why,
            (WindowFault::Discovery(why), WayclipError::Discovery(m)) => m@ == why,
            _ => false,
        }
    }
}

/// The active window as the helpers told it, or why it cannot be told.
pub open spec fn window_reading(
    probe: WindowProbe,
    desktop: DesktopEnvironmentType,
    session: SessionType,
) -> Result<ReadingView, WindowFault> {
    match probe {
        WindowProbe::NotRun(why) => Err(WindowFault::Io(why@)),
        WindowProbe::Unreadable(why) => Err(WindowFault::Json(why@)),
        WindowProbe::Hyprland(None) => Err(WindowFault::Discovery("hyprctl activewindow failed"@)),
        WindowProbe::Hyprland(Some(w)) => Ok(
            ReadingView {
                title: Some(w.title@),
                process: Some(w.class@),
                confidence: sureness(w.fullscreen == 1),
            },
        ),
        WindowProbe::Sway(None, _) => Err(WindowFault::Discovery("swaymsg get_tree failed"@)),
        WindowProbe::Sway(Some(root), comm) => match focused_node(root) {
            None => Err(WindowFault::Discovery("no focused sway node found"@)),
            Some(node) => Ok(
                ReadingView {
                    title: crate::text::text_option(node.name),
                    process: match (node.app_id, node.pid, comm) {
                        (Some(app), _, _) => Some(app@),
                        (None, Some(_), Some(c)) => Some(bare(c@)),
                        _ => None,
                    },
                    confidence: sureness(
                        node.fullscreen_mode matches Some(mode) && mode != 0,
                    ),
                },
            ),
        },
        WindowProbe::Gnome { title, pid, comm } => {
            let told = match said(title) {
                Some(s) => if gnome_title(s).len() > 0 {
                    Some(gnome_title(s))
                } else {
                    None
                },
                None => None,
            };
            let process = looked_up(said(pid), comm);
            if told is None && process is None {
                Err(
                    WindowFault::Discovery(
                        "gnome window detection produced no data (is the WindowsExt shell extension installed?)"@,
                    ),
                )
            } else {
                Ok(ReadingView { title: told, process, confidence: sureness(false) })
            }
        },
        WindowProbe::X11 { focus, title, pid, comm, state } => if said(focus) is None {
            Err(WindowFault::Discovery("xdotool getwindowfocus failed"@))
        } else {
            Ok(
                ReadingView {
                    title: match said(title) {
                        Some(s) => Some(bare(s)),
                        None => None,
                    },
                    process: looked_up(said(pid), comm),
                    confidence: sureness(
                        said(state) matches Some(s) && crate::text::has_text(
                            s,
                            "_NET_WM_STATE_FULLSCREEN"@,
                        ),
                    ),
                },
            )
        },
        WindowProbe::Unsupported => Err(
            WindowFault::Discovery(
                "unsupported desktop environment: "@ + desktop.word() + " ("@ + session.word()
                    + ")"@,
            ),
        ),
    }
}

/// The active window as the helpers told it.
pub fn read_window(
    probe: &WindowProbe,
    desktop: DesktopEnvironmentType,
    session: SessionType,
) -> (r: Result<WindowReading, WayclipError>)
    ensures
        match (window_reading(*probe, desktop, session), r) {
            (Ok(w), Ok(reading)) => reading@ == w,
            (Err(why), Err(e)) => why.is_told_by(e),
            _ => false,
        },
{
    match probe {
        WindowProbe::NotRun(why) => Err(WayclipError::Io(why.clone())),
        WindowProbe::Unreadable(why) => Err(WayclipError::Json(why.clone())),
        WindowProbe::Hyprland(None) => Err(
            WayclipError::Discovery("hyprctl activewindow failed".to_owned()),
        ),
        WindowProbe::Hyprland(Some(w)) => Ok(
            WindowReading {
                title: Some(w.title.clone()),
                process: Some(w.class.clone()),
                confidence: sure(w.fullscreen == 1),
            },
        ),
        WindowProbe::Sway(None, _) => Err(
            WayclipError::Discovery("swaymsg get_tree failed".to_owned()),
        ),
        WindowProbe::Sway(Some(root), comm) => match find_sway_focused(root) {
            None => Err(WayclipError::Discovery("no focused sway node found".to_owned())),
            Some(node) => {
                let fullscreen: bool = match node.fullscreen_mode {
                    Some(mode) => mode != 0,
                    None => false,
                };
                let title: Option<String> = match &node.name {
                    Some(n) => Some(n.clone()),
                    None => None,
                };
                let process: Option<String> = match (&node.app_id, node.pid, comm) {
                    (Some(app), _, _) => Some(app.clone()),
                    (None, Some(_), Some(c)) => Some(trim(c.as_str())),
                    _ => None,
                };
                Ok(WindowReading { title, process, confidence: sure(fullscreen) })
            },
        },
        WindowProbe::Gnome { title, pid, comm } => {
            let told: Option<String> = match output_text(title) {
                Some(s) => {
                    let parsed: String = parse_gnome_title(s.as_str());
                    if is_empty(parsed.as_str()) {
                        None
                    } else {
                        Some(parsed)
                    }
                },
                None => None,
            };
            let process: Option<String> = look_up(pid, comm);
            if told.is_none() && process.is_none() {
                Err(
                    WayclipError::Discovery(
                        "gnome window detection produced no data (is the WindowsExt shell extension installed?)".to_owned(),
                    ),
                )
            } else {
                Ok(WindowReading { title: told, process, confidence: sure(false) })
            }
        },
        WindowProbe::X11 { focus, title, pid, comm, state } => {
            if output_text(focus).is_none() {
                return Err(WayclipError::Discovery("xdotool getwindowfocus failed".to_owned()));
            }
            let told: Option<String> = match output_text(title) {
                Some(s) => Some(trim(s.as_str())),
                None => None,
            };
            let fullscreen: bool = match output_text(state) {
                Some(s) => contains(s.as_str(), "_NET_WM_STATE_FULLSCREEN"),
                None => false,
            };
            Ok(
                WindowReading {
                    title: told,
                    process: look_up(pid, comm),
                    confidence: sure(fullscreen),
                },
            )
        },
        WindowProbe::Unsupported => {
            let head: String = cat("unsupported desktop environment: ", desktop.name());
            let middle: String = cat(cat(head.as_str(), " (").as_str(), session.name());
            Err(WayclipError::Discovery(cat(middle.as_str(), ")")))
        },
    }
}

/// Whether a node stands in the tree of this root, floating or not.
pub open spec fn stands_in(node: SwayNode, root: SwayNode) -> bool
    decreases root,
{
    node == root || (match root.nodes {
        Some(list) => stands_among(node, list@),
        None => false,
    }) || (match root.floating_nodes {
        Some(list) => stands_among(node, list@),
        None => false,
    })
}

/// Whether a node stands in one of the trees of these roots.
pub open spec fn stands_among(node: SwayNode, list: Seq<SwayNode>) -> bool
    decreases list,
{
    list.len() > 0 && (stands_in(node, list[0]) || stands_among(node, list.drop_first()))
}

/// The node that is taken for the active one stands in the tree and is marked as active, and
/// where none is taken no node of the tree is so marked.
pub proof fn law_active_node_is_marked(root: SwayNode, any: SwayNode)
    ensures
        focused_node(root) matches Some(node) ==> node.focused == Some(true) && stands_in(
            node,
            root,
        ),
        stands_in(any, root) && any.focused == Some(true) ==> focused_node(root) is Some,
    decreases root,
{
    if let Some(list) = root.nodes {
        lemma_active_among(list@, any);
    }
    if let Some(list) = root.floating_nodes {
        lemma_active_among(list@, any);
    }
}

proof fn lemma_active_among(list: Seq<SwayNode>, any: SwayNode)
    ensures
        focused_among(list) matches Some(node) ==> node.focused == Some(true) && stands_among(
            node,
            list,
        ),
        stands_among(any, list) && any.focused == Some(true) ==> focused_among(list) is Some,
    decreases list,
{
    if list.len() > 0 {
        law_active_node_is_marked(list[0], any);
        lemma_active_among(list.drop_first(), any);
    }
}

/// A root that is marked as active is taken before all below it, and of the nodes below it one
/// that floats is taken only where no other is active.
pub proof fn law_root_and_tiles_go_first(root: SwayNode)
    ensures
        root.focused == Some(true) ==> focused_node(root) == Some(root),
        root.focused != Some(true) ==> (root.nodes matches Some(list) ==> (focused_among(
            list@,
        ) is Some ==> focused_node(root) == focused_among(list@))),
        root.focused != Some(true) && (root.nodes matches Some(list) ==> focused_among(
            list@,
        ) is None) ==> focused_node(root) == (match root.floating_nodes {
            Some(list) => focused_among(list@),
            None => None,
        }),
{
}

/// Of trees beside each other the first with an active node decides.
pub proof fn law_first_active_tree_decides(a: Seq<SwayNode>, root: SwayNode, b: Seq<SwayNode>)
    requires
        focused_among(a) is None,
        focused_node(root) is Some,
    ensures
        focused_among(a + seq![root] + b) == focused_node(root),
    decreases a.len(),
{
    let all = a + seq![root] + b;
    if a.len() > 0 {
        assert(all[0] == a[0]);
        assert(all.drop_first() =~= a.drop_first() + seq![root] + b);
        law_first_active_tree_decides(a.drop_first(), root, b);
    } else {
        assert(all[0] == root);
    }
}

/// A window makes a game sixty hundredths sure, and eighty where it fills the screen.
pub proof fn law_full_screen_makes_surer(
    probe: WindowProbe,
    desktop: DesktopEnvironmentType,
    session: SessionType,
)
    ensures
        window_reading(probe, desktop, session) matches Ok(w) ==> w.confidence == 60
            || w.confidence == 80,
        probe matches WindowProbe::Hyprland(Some(told)) ==> (window_reading(
            probe,
            desktop,
            session,
        ) matches Ok(w) && (w.confidence == 80 <==> told.fullscreen == 1)),
        probe is Gnome ==> (window_reading(probe, desktop, session) matches Ok(w) ==> w.confidence
            == 60),
        probe matches WindowProbe::X11 { state, .. } ==> (window_reading(
            probe,
            desktop,
            session,
        ) matches Ok(w) ==> (w.confidence == 80 <==> (said(state) is Some
            && crate::text::has_text(said(state).unwrap(), "_NET_WM_STATE_FULLSCREEN"@)))),
{
}

/// Hyprland's window is told by its title and its class.
pub proof fn law_hyprland_window(
    told: HyprctlActiveWindow,
    desktop: DesktopEnvironmentType,
    session: SessionType,
)
    ensures
        window_reading(WindowProbe::Hyprland(Some(told)), desktop, session) matches Ok(w)
            && w.title == Some(told.title@) && w.process == Some(told.class@),
        window_reading(WindowProbe::Hyprland(None), desktop, session) is Err,
{
}

/// Sway's window is that of a node of its tree that is marked as active. The name that Sway has
/// for the program goes before the name of the process, and that one counts only where Sway
/// told the process.
pub proof fn law_sway_window(
    root: SwayNode,
    comm: Option<String>,
    desktop: DesktopEnvironmentType,
    session: SessionType,
)
    ensures
        window_reading(WindowProbe::Sway(Some(root), comm), desktop, session) is Ok <==> exists|
            node: SwayNode,
        | #[trigger] stands_in(node, root) && node.focused == Some(true),
        window_reading(WindowProbe::Sway(Some(root), comm), desktop, session) matches Ok(w) ==> ({
            let node = focused_node(root).unwrap();
            &&& stands_in(node, root) && node.focused == Some(true)
            &&& w.title == crate::text::text_option(node.name)
            &&& node.app_id is Some ==> w.process == Some(node.app_id.unwrap()@)
            &&& node.app_id is None && (node.pid is None || comm is None) ==> w.process is None
            &&& node.app_id is None && node.pid is Some && comm is Some ==> w.process == Some(
                bare(comm.unwrap()@),
            )
            &&& w.confidence == 80 <==> node.fullscreen_mode is Some
                && node.fullscreen_mode.unwrap() != 0
        }),
{
    law_active_node_is_marked(root, root);
    if exists|node: SwayNode| #[trigger] stands_in(node, root) && node.focused == Some(true) {
        let node = choose|node: SwayNode| #[trigger]
            stands_in(node, root) && node.focused == Some(true);
        law_active_node_is_marked(root, node);
    }
}

/// On GNOME a title or a program is enough, and without both the window is not told; an empty
/// title is none.
pub proof fn law_gnome_window(
    title: Option<Vec<u8>>,
    pid: Option<Vec<u8>>,
    comm: Option<String>,
    desktop: DesktopEnvironmentType,
    session: SessionType,
)
    ensures
        window_reading(WindowProbe::Gnome { title, pid, comm }, desktop, session) matches Ok(w)
            ==> (w.title is Some || w.process is Some) && (w.title matches Some(t) ==> t.len() > 0),
        said(title) is None && comm is None ==> window_reading(
            WindowProbe::Gnome { title, pid, comm },
            desktop,
            session,
        ) is Err,
        said(title) is Some && gnome_title(said(title).unwrap()).len() > 0 ==> (window_reading(
            WindowProbe::Gnome { title, pid, comm },
            desktop,
            session,
        ) matches Ok(w) && w.title == Some(gnome_title(said(title).unwrap()))),
        comm is Some && said(pid) is Some && process_number(said(pid).unwrap()) is Some ==> (
        window_reading(WindowProbe::Gnome { title, pid, comm }, desktop, session) matches Ok(w)
            && w.process == Some(bare(comm.unwrap()@))),
{
}

/// On X11 the window is told once the active one is, whatever else is missing.
pub proof fn law_x11_window(
    focus: Option<Vec<u8>>,
    title: Option<Vec<u8>>,
    pid: Option<Vec<u8>>,
    comm: Option<String>,
    state: Option<Vec<u8>>,
    desktop: DesktopEnvironmentType,
    session: SessionType,
)
    ensures
        window_reading(WindowProbe::X11 { focus, title, pid, comm, state }, desktop, session) is Ok
            <==> said(focus) is Some,
        window_reading(
            WindowProbe::X11 { focus, title, pid, comm, state },
            desktop,
            session,
        ) matches Ok(w) ==> {
            &&& w.title is Some <==> said(title) is Some
            &&& said(title) is Some ==> w.title == Some(bare(said(title).unwrap()))
            &&& w.process is Some <==> comm is Some && said(pid) is Some && process_number(
                said(pid).unwrap(),
            ) is Some
            &&& w.process is Some ==> w.process == Some(bare(comm.unwrap()@))
        },
{
}

/// The title that GNOME's helper puts in brackets and quotes is told without them, as it is.
#[verifier::spinoff_prover]
pub proof fn law_gnome_title_is_unwrapped(title: Seq<char>)
    requires
        title.len() > 0 ==> title[0] != '\'' && title.last() != '\'',
    ensures
        gnome_title(seq!['('] + seq!['\''] + title + seq!['\''] + seq![')']) == title,
{
    let quoted = seq!['\''] + title + seq!['\''];
    let whole = seq!['('] + seq!['\''] + title + seq!['\''] + seq![')'];
    assert(whole =~= seq!['('] + quoted + seq![')']);
    let opened = quoted + seq![')'];
    crate::text::law_nothing_to_trim(whole, TrimSet::WhiteSpace);
    assert(whole.subrange(1, whole.len() as int) =~= opened);
    assert(crate::text::trimmed_start(opened, TrimSet::Only('(')) == opened);
    assert(crate::text::trimmed(whole, TrimSet::Only('(')) == opened);
    assert(opened.subrange(0, opened.len() - 1) =~= quoted);
    assert(crate::text::trimmed_end(quoted, TrimSet::Only(')')) == quoted);
    assert(crate::text::trimmed(opened, TrimSet::Only(')')) == quoted);
    crate::text::law_nothing_to_trim(quoted, TrimSet::WhiteSpace);
    let half = title + seq!['\''];
    assert(quoted.subrange(1, quoted.len() as int) =~= half);
    if title.len() > 0 {
        assert(crate::text::trimmed_start(half, TrimSet::Only('\'')) == half);
        assert(crate::text::trimmed_start(quoted, TrimSet::Only('\'')) == half);
        assert(half.subrange(0, half.len() - 1) =~= title);
        assert(crate::text::trimmed_end(title, TrimSet::Only('\'')) == title);
        assert(crate::text::trimmed_end(half, TrimSet::Only('\'')) == title);
    } else {
        assert(half.subrange(1, half.len() as int) =~= title);
        assert(crate::text::trimmed_start(title, TrimSet::Only('\'')) == title);
        assert(crate::text::trimmed_start(half, TrimSet::Only('\'')) == title);
        assert(crate::text::trimmed_start(quoted, TrimSet::Only('\'')) == title);
        assert(crate::text::trimmed_end(title, TrimSet::Only('\'')) == title);
    }
}

/// The number of a process is read wherever it stands in what the helper said, as long as no
/// other digit stands there; a number that is too large, or none, is no process.
#[verifier::spinoff_prover]
pub proof fn law_process_number_is_read(before: Seq<char>, pid: nat, behind: Seq<char>)
    requires
        forall|i: int| 0 <= i < before.len() ==> !crate::text::is_digit(#[trigger] before[i]),
        forall|i: int| 0 <= i < behind.len() ==> !crate::text::is_digit(#[trigger] behind[i]),
    ensures
        pid <= 4_294_967_295 ==> process_number(before + crate::text::decimal(pid) + behind)
            == Some(pid),
        pid > 4_294_967_295 ==> process_number(before + crate::text::decimal(pid) + behind) is None,
        process_number(before) is None,
{
    crate::text::law_decimal_is_read_back(pid, u32::MAX as nat);
    crate::text::law_digits_are_kept(before, crate::text::decimal(pid), behind);
    crate::text::law_digits_are_kept(before, Seq::<char>::empty(), Seq::<char>::empty());
    assert(before + Seq::<char>::empty() + Seq::<char>::empty() =~= before);
}

/// The names of two processes stand in two files.
pub proof fn law_each_process_has_its_file(a: nat, b: nat)
    ensures
        comm_file(a) == comm_file(b) ==> a == b,
{
    let head = "/proc/"@;
    let tail = "/comm"@;
    if comm_file(a) == comm_file(b) {
        let da = crate::text::decimal(a);
        let db = crate::text::decimal(b);
        let whole = head + da + tail;
        assert(whole == head + db + tail);
        assert(da.len() == db.len());
        assert(da =~= whole.subrange(head.len() as int, (head.len() + da.len()) as int));
        assert(db =~= whole.subrange(head.len() as int, (head.len() + db.len()) as int));
        crate::text::law_decimals_differ(a, b);
    }
}

/// A question about a window on X11 names that window.
pub proof fn law_questions_name_their_window(id: String)
    ensures
        WindowQuery::NameOf(id).arguments()[1] == id@,
        WindowQuery::PidOf(id).arguments()[1] == id@,
        WindowQuery::StateOf(id).arguments()[1] == id@,
{
}

/// Hyprland, Sway and GNOME have helpers of their own; every other desktop is asked through X11,
/// where the display system is that, and else not at all.
pub proof fn law_helpers_by_desktop(desktop: DesktopEnvironmentType, session: SessionType)
    ensures
        helper_for(desktop, session) is Hyprland <==> desktop is Hyprland,
        helper_for(desktop, session) is Sway <==> desktop is Sway,
        helper_for(desktop, session) is Gnome <==> desktop is Gnome,
        helper_for(desktop, session) is X11 <==> session is X11 && !(desktop is Hyprland) && !(
        desktop is Sway) && !(desktop is Gnome),
{
}

} // verus!
