//! Saving a clip by a key, on the desktops that are known.

use crate::bytes::lossy;
use crate::error::WayclipError;
use crate::paths::{join, parent};
use crate::text::{
    cat, chars_of, decimal_text, find_from, is_empty, lowercase, replace, same_text, text_between,
    trim,
};
use vstd::prelude::*;

verus! {

/// The display system of a session.
#[derive(Clone, Copy, Debug, PartialEq, Eq, Structural)]
pub enum SessionType {
    /// X11.
    X11,
    /// Wayland.
    Wayland,
    /// Another one.
    Unknown,
}

impl SessionType {
    /// The word for the display system.
    pub open spec fn word(self) -> Seq<char> {
        match self {
            SessionType::X11 => "X11"@,
            SessionType::Wayland => "Wayland"@,
            SessionType::Unknown => "Unknown"@,
        }
    }

    /// The word for the display system.
    pub fn name(self) -> (r: &'static str)
        ensures
            r@ == self.word(),
    {
        match self {
            SessionType::X11 => "X11",
            SessionType::Wayland => "Wayland",
            SessionType::Unknown => "Unknown",
        }
    }
}

impl Default for SessionType {
    fn default() -> (r: SessionType)
        ensures
            r is Unknown,
    {
        SessionType::Unknown
    }
}

/// The desktop of a session.
#[derive(Clone, Copy, Debug, PartialEq, Eq, Structural)]
pub enum DesktopEnvironmentType {
    /// Hyprland.
    Hyprland,
    /// GNOME.
    Gnome,
    /// Sway.
    Sway,
    /// KDE.
    Kde,
    /// Another one.
    Unknown,
}

impl DesktopEnvironmentType {
    /// The word for the desktop.
    pub open spec fn word(self) -> Seq<char> {
        match self {
            DesktopEnvironmentType::Hyprland => "Hyprland"@,
            DesktopEnvironmentType::Gnome => "Gnome"@,
            DesktopEnvironmentType::Sway => "Sway"@,
            DesktopEnvironmentType::Kde => "Kde"@,
            DesktopEnvironmentType::Unknown => "Unknown"@,
        }
    }

    /// The word for the desktop.
    pub fn name(self) -> (r: &'static str)
        ensures
            r@ == self.word(),
    {
        match self {
            DesktopEnvironmentType::Hyprland => "Hyprland",
            DesktopEnvironmentType::Gnome => "Gnome",
            DesktopEnvironmentType::Sway => "Sway",
            DesktopEnvironmentType::Kde => "Kde",
            DesktopEnvironmentType::Unknown => "Unknown",
        }
    }
}

impl Default for DesktopEnvironmentType {
    fn default() -> (r: DesktopEnvironmentType)
        ensures
            r is Unknown,
    {
        DesktopEnvironmentType::Unknown
    }
}

/// The display system of this name in lower case.
pub open spec fn session_called(name: Seq<char>) -> SessionType {
    if name == "wayland"@ {
        SessionType::Wayland
    } else if name == "x11"@ || name == "xorg"@ {
        SessionType::X11
    } else {
        SessionType::Unknown
    }
}

/// The desktop of this name in lower case. One that is not known counts as GNOME, where
/// the least is asked of it.
pub open spec fn desktop_called(name: Seq<char>) -> DesktopEnvironmentType {
    if name == "hyprland"@ {
        DesktopEnvironmentType::Hyprland
    } else if name == "sway"@ {
        DesktopEnvironmentType::Sway
    } else if name == "kde"@ {
        DesktopEnvironmentType::Kde
    } else {
        DesktopEnvironmentType::Gnome
    }
}

/// The desktop of this name in lower case, if it is one on which a key can be bound.
pub open spec fn listed_desktop(name: Seq<char>) -> Option<DesktopEnvironmentType> {
    if name == "hyprland"@ {
        Some(DesktopEnvironmentType::Hyprland)
    } else if name == "gnome"@ {
        Some(DesktopEnvironmentType::Gnome)
    } else if name == "sway"@ {
        Some(DesktopEnvironmentType::Sway)
    } else if name == "kde"@ {
        Some(DesktopEnvironmentType::Kde)
    } else {
        None
    }
}

/// The first desktop on which a key can be bound among names in lower case that colons part.
pub open spec fn listed_among(names: Seq<char>) -> Option<DesktopEnvironmentType>
    decreases names.len(),
{
    let at = crate::text::first_position(names, ':');
    match listed_desktop(names.subrange(0, at)) {
        Some(desktop) => Some(desktop),
        None => if 0 <= at < names.len() {
            listed_among(names.subrange(at + 1, names.len() as int))
        } else {
            None
        },
    }
}

/// The display system of this name in lower case.
pub fn session_from_name(name: &str) -> (r: SessionType)
    ensures
        r == session_called(name@),
{
    if same_text(name, "wayland") {
        SessionType::Wayland
    } else if same_text(name, "x11") || same_text(name, "xorg") {
        SessionType::X11
    } else {
        SessionType::Unknown
    }
}

/// The desktop of this name in lower case.
pub fn desktop_from_name(name: &str) -> (r: DesktopEnvironmentType)
    ensures
        r == desktop_called(name@),
{
    if same_text(name, "hyprland") {
        DesktopEnvironmentType::Hyprland
    } else if same_text(name, "sway") {
        DesktopEnvironmentType::Sway
    } else if same_text(name, "kde") {
        DesktopEnvironmentType::Kde
    } else {
        DesktopEnvironmentType::Gnome
    }
}

/// The desktop of this name in lower case, if it is one on which a key can be bound.
pub fn bindable_from_name(name: &str) -> (r: Option<DesktopEnvironmentType>)
    ensures
        r == listed_desktop(name@),
{
    if same_text(name, "hyprland") {
        Some(DesktopEnvironmentType::Hyprland)
    } else if same_text(name, "gnome") {
        Some(DesktopEnvironmentType::Gnome)
    } else if same_text(name, "sway") {
        Some(DesktopEnvironmentType::Sway)
    } else if same_text(name, "kde") {
        Some(DesktopEnvironmentType::Kde)
    } else {
        None
    }
}

/// The first desktop on which a key can be bound among names in lower case that colons part.
pub fn bindable_among(names: &str) -> (r: Option<DesktopEnvironmentType>)
    ensures
        r == listed_among(names@),
{
    let v: Vec<char> = chars_of(names);
    let mut from: usize = 0;
    assert(v@.subrange(0, v@.len() as int) =~= v@);
    loop
        invariant
            from <= v@.len(),
            listed_among(names@) == listed_among(v@.subrange(from as int, v@.len() as int)),
        decreases v@.len() - from,
    {
        let ghost rest = v@.subrange(from as int, v@.len() as int);
        let at: usize = find_from(&v, ':', from);
        let name: String = text_between(&v, from, at);
        assert(name@ =~= rest.subrange(0, at - from));
        let known: Option<DesktopEnvironmentType> = bindable_from_name(name.as_str());
        if known.is_some() || at == v.len() {
            return known;
        }
        assert(rest.subrange(at - from + 1, rest.len() as int) =~= v@.subrange(
            at + 1,
            v@.len() as int,
        ));
        from = at + 1;
    }
}

/// What a helper program did.
#[derive(Debug)]
pub enum CommandOutput {
    /// It could not be run, for this reason.
    NotRun(String),
    /// It ran.
    Ran {
        /// Whether it reported success.
        success: bool,
        /// The code that it ended with, if it ended by itself.
        code: Option<i32>,
        /// What it complained of.
        stderr: Vec<u8>,
        /// What it said.
        stdout: Vec<u8>,
    },
}

impl CommandOutput {
    /// Whether this is the judgement of what a helper program did, which is called so in
    /// messages.
    pub open spec fn is_judged(&self, desc: Seq<char>, r: Result<(), WayclipError>) -> bool {
        match *self {
            CommandOutput::NotRun(e) => r matches Err(WayclipError::CLI(m)) && m@
                == "Failed to execute '"@ + desc + "': "@ + e@,
            CommandOutput::Ran { success, code, stderr, stdout } => if success {
                r is Ok
            } else {
                r matches Err(WayclipError::CLI(m)) && m@ == "Command '"@ + desc + "' failed: "@
                    + failure_words(
                    crate::bytes::lossy_text(stderr@),
                    crate::bytes::lossy_text(stdout@),
                    code,
                )
            },
        }
    }
}

/// A signed number in decimal.
pub open spec fn signed_decimal(n: int) -> Seq<char> {
    if n < 0 {
        "-"@ + crate::text::decimal((-n) as nat)
    } else {
        crate::text::decimal(n as nat)
    }
}

/// The code of a program that ended, in words.
pub open spec fn code_words(code: Option<i32>) -> Seq<char> {
    match code {
        Some(c) => "Some("@ + signed_decimal(c as int) + ")"@,
        None => "None"@,
    }
}

fn code_text(code: Option<i32>) -> (r: String)
    ensures
        r@ == code_words(code),
{
    match code {
        Some(c) => {
            let number: String = if c < 0 {
                let size: u64 = (-(c as i64)) as u64;
                cat("-", decimal_text(size).as_str())
            } else {
                decimal_text(c as u64)
            };
            cat(cat("Some(", number.as_str()).as_str(), ")")
        },
        None => "None".to_owned(),
    }
}

/// What a program that failed had to say: its complaints, else its output, else its code.
pub open spec fn failure_words(stderr: Seq<char>, stdout: Seq<char>, code: Option<i32>) -> Seq<
    char,
> {
    let ws = crate::text::TrimSet::WhiteSpace;
    if crate::text::trimmed(stderr, ws).len() > 0 {
        crate::text::trimmed(stderr, ws)
    } else if crate::text::trimmed(stdout, ws).len() > 0 {
        crate::text::trimmed(stdout, ws)
    } else {
        "process exited with code "@ + code_words(code)
    }
}

/// What a program that failed had to say.
pub fn failure_text(stderr: &str, stdout: &str, code: Option<i32>) -> (r: String)
    ensures
        r@ == failure_words(stderr@, stdout@, code),
{
    let complaint: String = trim(stderr);
    let output: String = trim(stdout);
    if !is_empty(complaint.as_str()) {
        complaint
    } else if !is_empty(output.as_str()) {
        output
    } else {
        cat("process exited with code ", code_text(code).as_str())
    }
}

/// What is done to have a key save a clip, or to have it stop.
#[derive(Debug)]
pub enum BindAction {
    /// A helper program is run.
    Run {
        /// The program.
        program: String,
        /// Its arguments.
        arguments: Vec<String>,
        /// What it is called in messages.
        description: String,
    },
    /// The key is registered with, or taken back from, the desktop.
    GlobalHotkey,
    /// Nothing, and the user is told this.
    Tell(String),
}

/// Whether an action runs this program with these arguments.
pub open spec fn runs(
    action: BindAction,
    program: Seq<char>,
    arguments: Seq<Seq<char>>,
    description: Seq<char>,
) -> bool {
    action matches BindAction::Run { program: p, arguments: a, description: d } && p@ == program
        && crate::text::texts_view(a@) == arguments && d@ == description
}

/// The keys of a combination with blanks round each plus.
pub open spec fn spaced(combo: Seq<char>) -> Seq<char> {
    crate::text::replaced(combo, "+"@, " + "@)
}

/// The command that saves a clip, given the path of the running program.
pub open spec fn trigger_command(exe: Seq<char>) -> Option<Seq<char>> {
    match crate::paths::parent_path(exe) {
        Some(dir) => Some(crate::paths::joined(dir, "wayclip-cli-linux"@) + " daemon save"@),
        None => None,
    }
}

/// Ties a key to the saving of a clip.
#[derive(Debug)]
pub struct DesktopEnvironmentManager {
    /// The desktop.
    pub desktop: DesktopEnvironmentType,
    /// The keys, joined by plus signs.
    pub trigger_combo: String,
}

impl DesktopEnvironmentManager {
    /// A manager for these keys, on the desktop that the environment names. On Wayland a
    /// desktop that is not known stays unknown, since no key can be bound there.
    pub fn new(
        session_env: Option<&str>,
        desktop_env: Option<&str>,
        trigger_combo: String,
    ) -> (r: DesktopEnvironmentManager)
        ensures
            r.desktop == bound_desktop(session_env, desktop_env),
            r.trigger_combo == trigger_combo,
    {
        let (named, session) = DesktopEnvironmentManager::get_env_session(
            session_env,
            desktop_env,
        );
        let desktop: DesktopEnvironmentType = if session == SessionType::Wayland {
            let names: &str = match desktop_env {
                Some(d) => d,
                None => "gnome",
            };
            match bindable_among(lowercase(names).as_str()) {
                Some(d) => d,
                None => DesktopEnvironmentType::Unknown,
            }
        } else {
            named
        };
        DesktopEnvironmentManager { desktop, trigger_combo }
    }

    /// The desktop and the display system, as the environment names them. Wayland and GNOME
    /// stand in for names that are missing.
    pub fn get_env_session(session_env: Option<&str>, desktop_env: Option<&str>) -> (r: (
        DesktopEnvironmentType,
        SessionType,
    ))
        ensures
            r == (env_desktop(desktop_env), env_session(session_env)),
    {
        let session_name: &str = match session_env {
            Some(s) => s,
            None => "wayland",
        };
        let desktop_name: &str = match desktop_env {
            Some(d) => d,
            None => "gnome",
        };
        (
            desktop_from_name(lowercase(desktop_name).as_str()),
            session_from_name(lowercase(session_name).as_str()),
        )
    }

    /// Judges what a helper program did; `desc` is what it is called in messages.
    pub fn run_command(output: &CommandOutput, desc: &str) -> (r: Result<(), WayclipError>)
        ensures
            output.is_judged(desc@, r),
    {
        match output {
            CommandOutput::NotRun(e) => {
                let head: String = cat(cat("Failed to execute '", desc).as_str(), "': ");
                Err(WayclipError::CLI(cat(head.as_str(), e.as_str())))
            },
            CommandOutput::Ran { success, code, stderr, stdout } => {
                if *success {
                    return Ok(());
                }
                let complaint: String = lossy(stderr.as_slice());
                let said: String = lossy(stdout.as_slice());
                let why: String = failure_text(complaint.as_str(), said.as_str(), *code);
                let head: String = cat(cat("Command '", desc).as_str(), "' failed: ");
                Err(WayclipError::CLI(cat(head.as_str(), why.as_str())))
            },
        }
    }

    /// The command that saves a clip, given the path of the running program.
    pub fn get_trigger_command_string(&self, exe: &str) -> (r: Result<String, WayclipError>)
        ensures
            match trigger_command(exe@) {
                Some(command) => r matches Ok(s) && s@ == command,
                None => r matches Err(WayclipError::NotFound(m)) && m@ == "No parent found"@,
            },
    {
        match parent(exe) {
            Some(dir) => Ok(cat(join(dir.as_str(), "wayclip-cli-linux").as_str(), " daemon save")),
            None => Err(WayclipError::NotFound("No parent found".to_owned())),
        }
    }

    /// Whether the key can only be registered through X11.
    pub fn needs_x11(desktop: DesktopEnvironmentType, session: SessionType) -> (r: bool)
        ensures
            r == (desktop is Gnome && session is Wayland),
    {
        desktop == DesktopEnvironmentType::Gnome && session == SessionType::Wayland
    }

    /// Whether a report of the desktop means that the registered key was let go.
    pub fn is_trigger(event_id: u32, hotkey_id: u32, released: bool) -> (r: bool)
        ensures
            r == (event_id == hotkey_id && released),
    {
        event_id == hotkey_id && released
    }

    /// Whether the key is tied to a command, so that the path of the running program is
    /// needed: not where the key is registered with the desktop.
    pub fn needs_command(&self) -> (r: bool)
        ensures
            r == !(self.desktop is Gnome || self.desktop is Kde),
    {
        self.desktop != DesktopEnvironmentType::Gnome && self.desktop
            != DesktopEnvironmentType::Kde
    }

    /// Whether this is what is done to have the key save a clip, given the path of the
    /// running program.
    pub open spec fn binds(&self, exe: Seq<char>, r: Result<BindAction, WayclipError>) -> bool {
        match (self.desktop, trigger_command(exe), r) {
            (DesktopEnvironmentType::Gnome, _, Ok(action)) => action is GlobalHotkey,
            (DesktopEnvironmentType::Kde, _, Ok(action)) => action is GlobalHotkey,
            (DesktopEnvironmentType::Hyprland, Some(command), Ok(action)) => runs(
                action,
                "hyprctl"@,
                seq![
                    "eval"@,
                    "hl.bind(\""@ + spaced(self.trigger_combo@)
                        + "\", hl.dsp.exec_cmd(\""@ + command + "\"))"@,
                ],
                "hyprctl eval"@,
            ),
            (DesktopEnvironmentType::Sway, Some(command), Ok(action)) => runs(
                action,
                "swaymsg"@,
                seq!["bindsym"@, self.trigger_combo@, "exec"@, command],
                "swaymsg bindsym"@,
            ),
            (DesktopEnvironmentType::Unknown, Some(command), Ok(action)) =>
            action matches BindAction::Tell(m) && m@
                == "No auto bind setup available for your desktop environment. Please bind "@
                + self.trigger_combo@ + " to "@ + command,
            (_, None, Err(WayclipError::NotFound(m))) => !(self.desktop is Gnome) && !(
            self.desktop is Kde) && m@ == "No parent found"@,
            _ => false,
        }
    }

    /// What is done to have the key save a clip, given the path of the running program.
    pub fn create_auto_bind(&self, exe: &str) -> (r: Result<BindAction, WayclipError>)
        ensures
            self.binds(exe@, r),
    {
        match self.desktop {
            DesktopEnvironmentType::Hyprland => {
                let keys: String = replace_plus(self.trigger_combo.as_str());
                let command: String = match self.get_trigger_command_string(exe) {
                    Ok(c) => c,
                    Err(e) => {
                        return Err(e);
                    },
                };
                let head: String = cat(cat("hl.bind(\"", keys.as_str()).as_str(), "\", hl.dsp.exec_cmd(\"");
                let full: String = cat(cat(head.as_str(), command.as_str()).as_str(), "\"))");
                let mut arguments: Vec<String> = Vec::new();
                arguments.push("eval".to_owned());
                arguments.push(full);
                assert(crate::text::texts_view(arguments@) =~= seq![
                    "eval"@,
                    "hl.bind(\""@ + spaced(self.trigger_combo@) + "\", hl.dsp.exec_cmd(\""@
                        + command@ + "\"))"@,
                ]);
                Ok(
                    BindAction::Run {
                        program: "hyprctl".to_owned(),
                        arguments,
                        description: "hyprctl eval".to_owned(),
                    },
                )
            },
            DesktopEnvironmentType::Sway => {
                let command: String = match self.get_trigger_command_string(exe) {
                    Ok(c) => c,
                    Err(e) => {
                        return Err(e);
                    },
                };
                let ghost said = command@;
                let mut arguments: Vec<String> = Vec::new();
                arguments.push("bindsym".to_owned());
                arguments.push(self.trigger_combo.clone());
                arguments.push("exec".to_owned());
                arguments.push(command);
                assert(crate::text::texts_view(arguments@) =~= seq![
                    "bindsym"@,
                    self.trigger_combo@,
                    "exec"@,
                    said,
                ]);
                Ok(
                    BindAction::Run {
                        program: "swaymsg".to_owned(),
                        arguments,
                        description: "swaymsg bindsym".to_owned(),
                    },
                )
            },
            DesktopEnvironmentType::Gnome | DesktopEnvironmentType::Kde => Ok(
                BindAction::GlobalHotkey,
            ),
            DesktopEnvironmentType::Unknown => {
                let command: String = match self.get_trigger_command_string(exe) {
                    Ok(c) => c,
                    Err(e) => {
                        return Err(e);
                    },
                };
                let head: String = cat(
                    "No auto bind setup available for your desktop environment. Please bind ",
                    self.trigger_combo.as_str(),
                );
                Ok(
                    BindAction::Tell(cat(cat(head.as_str(), " to ").as_str(), command.as_str())),
                )
            },
        }
    }

    /// Whether this is what is done to have the key save no more clips.
    pub open spec fn unbinds(&self, r: BindAction) -> bool {
        match self.desktop {
            DesktopEnvironmentType::Gnome => r is GlobalHotkey,
            DesktopEnvironmentType::Kde => r is GlobalHotkey,
            DesktopEnvironmentType::Hyprland => runs(
                r,
                "hyprctl"@,
                seq!["eval"@, "hl.unbind(\""@ + spaced(self.trigger_combo@) + "\")"@],
                "hyprctl eval unbind"@,
            ),
            DesktopEnvironmentType::Sway => runs(
                r,
                "swaymsg"@,
                seq!["unbindsym"@, self.trigger_combo@],
                "swaymsg unbindsym"@,
            ),
            DesktopEnvironmentType::Unknown => r matches BindAction::Tell(m) && m@
                == "No auto bind removal available for your desktop environment"@,
        }
    }

    /// What is done to have the key save no more clips.
    pub fn remove_auto_bind(&self) -> (r: BindAction)
        ensures
            self.unbinds(r),
    {
        match self.desktop {
            DesktopEnvironmentType::Hyprland => {
                let keys: String = replace_plus(self.trigger_combo.as_str());
                let full: String = cat(cat("hl.unbind(\"", keys.as_str()).as_str(), "\")");
                let mut arguments: Vec<String> = Vec::new();
                arguments.push("eval".to_owned());
                arguments.push(full);
                assert(crate::text::texts_view(arguments@) =~= seq![
                    "eval"@,
                    "hl.unbind(\""@ + spaced(self.trigger_combo@) + "\")"@,
                ]);
                BindAction::Run {
                    program: "hyprctl".to_owned(),
                    arguments,
                    description: "hyprctl eval unbind".to_owned(),
                }
            },
            DesktopEnvironmentType::Sway => {
                let mut arguments: Vec<String> = Vec::new();
                arguments.push("unbindsym".to_owned());
                arguments.push(self.trigger_combo.clone());
                assert(crate::text::texts_view(arguments@) =~= seq!["unbindsym"@, self.trigger_combo@]);
                BindAction::Run {
                    program: "swaymsg".to_owned(),
                    arguments,
                    description: "swaymsg unbindsym".to_owned(),
                }
            },
            DesktopEnvironmentType::Gnome | DesktopEnvironmentType::Kde => BindAction::GlobalHotkey,
            DesktopEnvironmentType::Unknown => BindAction::Tell(
                "No auto bind removal available for your desktop environment".to_owned(),
            ),
        }
    }
}

fn replace_plus(combo: &str) -> (r: String)
    ensures
        r@ == spaced(combo@),
{
    proof {
        reveal_strlit("+");
    }
    replace(combo, "+", " + ")
}

/// The display system that the environment names.
pub open spec fn env_session(session_env: Option<&str>) -> SessionType {
    session_called(
        crate::text::lower_case(
            match session_env {
                Some(s) => s@,
                None => "wayland"@,
            },
        ),
    )
}

/// The names of the desktop in the environment, in lower case.
pub open spec fn env_names(desktop_env: Option<&str>) -> Seq<char> {
    crate::text::lower_case(
        match desktop_env {
            Some(d) => d@,
            None => "gnome"@,
        },
    )
}

/// The desktop that the environment names.
pub open spec fn env_desktop(desktop_env: Option<&str>) -> DesktopEnvironmentType {
    desktop_called(env_names(desktop_env))
}

/// The desktop on which the key is bound: on Wayland the first one among the names in the
/// environment on which that can be done, or an unknown one; elsewhere the one that the
/// environment names.
pub open spec fn bound_desktop(
    session_env: Option<&str>,
    desktop_env: Option<&str>,
) -> DesktopEnvironmentType {
    if env_session(session_env) is Wayland {
        match listed_among(env_names(desktop_env)) {
            Some(desktop) => desktop,
            None => DesktopEnvironmentType::Unknown,
        }
    } else {
        env_desktop(desktop_env)
    }
}

/// On Wayland a key is bound on no desktop but the four that are known: where the environment
/// names none of them, the action of [`DesktopEnvironmentManager::create_auto_bind`] is to
/// tell the user so.
pub proof fn law_other_desktops_bind_no_key(
    session_env: Option<&str>,
    desktop_env: Option<&str>,
    manager: DesktopEnvironmentManager,
    exe: Seq<char>,
    action: BindAction,
)
    requires
        env_session(session_env) is Wayland,
        listed_among(env_names(desktop_env)) is None,
        manager.desktop == bound_desktop(session_env, desktop_env),
        manager.binds(exe, Ok(action)),
    ensures
        action is Tell,
{
}

/// A single name of a known desktop means that desktop to the key as to everything else; a
/// single name of another one means, on Wayland, a desktop without a key.
pub proof fn law_single_names(session_env: Option<&str>, desktop_env: Option<&str>)
    requires
        !env_names(desktop_env).contains(':'),
    ensures
        listed_desktop(env_names(desktop_env)) is Some ==> bound_desktop(
            session_env,
            desktop_env,
        ) == env_desktop(desktop_env),
        listed_desktop(env_names(desktop_env)) is None && env_session(session_env) is Wayland
            ==> bound_desktop(session_env, desktop_env) is Unknown,
{
    let name = env_names(desktop_env);
    reveal_strlit("gnome");
    reveal_strlit("sway");
    reveal_strlit("kde");
    crate::text::lemma_no_position(name, ':');
    assert(name.subrange(0, name.len() as int) =~= name);
}

/// In a list the first name of a known desktop counts, whatever stands before and behind it.
pub proof fn law_lists_of_names(name: Seq<char>, rest: Seq<char>)
    requires
        !name.contains(':'),
    ensures
        listed_among(name + seq![':'] + rest) == match listed_desktop(name) {
            Some(desktop) => Some(desktop),
            None => listed_among(rest),
        },
{
    let whole = name + seq![':'] + rest;
    crate::text::lemma_position_behind(name, ':', rest);
    assert(whole.subrange(0, name.len() as int) =~= name);
    assert(whole.subrange(name.len() as int + 1, whole.len() as int) =~= rest);
}

/// The environment is read in any case of letters, and Wayland and GNOME stand in for names
/// that are missing.
pub proof fn law_environment_is_read(a: &str, b: &str)
    ensures
        env_session(None) is Wayland,
        env_desktop(None) is Gnome,
        crate::text::lower_case(a@) == crate::text::lower_case(b@) ==> env_session(Some(a))
            == env_session(Some(b)) && env_desktop(Some(a)) == env_desktop(Some(b)),
{
    reveal_strlit("wayland");
    reveal_strlit("gnome");
    reveal_strlit("hyprland");
    reveal_strlit("sway");
    reveal_strlit("kde");
    assert(crate::text::lower_case("wayland"@) =~= "wayland"@);
    assert(crate::text::lower_case("gnome"@) =~= "gnome"@);
    assert("gnome"@.len() == 5 && "hyprland"@.len() == 8 && "sway"@.len() == 4 && "kde"@.len()
        == 3);
}

/// The display systems and the desktops are known by their names, and by no others: an unknown
/// display system stays unknown, and an unknown desktop counts as GNOME but has no key bound.
pub proof fn law_known_names(name: Seq<char>)
    ensures
        session_called(name) is Wayland <==> name == "wayland"@,
        session_called(name) is X11 <==> name == "x11"@ || name == "xorg"@,
        desktop_called(name) is Hyprland <==> name == "hyprland"@,
        desktop_called(name) is Sway <==> name == "sway"@,
        desktop_called(name) is Kde <==> name == "kde"@,
        !(desktop_called(name) is Unknown),
        listed_desktop(name) is Some <==> name == "hyprland"@ || name == "gnome"@ || name
            == "sway"@ || name == "kde"@,
        listed_desktop(name) matches Some(desktop) ==> desktop == desktop_called(name),
{
    reveal_strlit("wayland");
    reveal_strlit("x11");
    reveal_strlit("xorg");
    reveal_strlit("hyprland");
    reveal_strlit("gnome");
    reveal_strlit("sway");
    reveal_strlit("kde");
    assert("wayland"@.len() == 7 && "x11"@.len() == 3 && "xorg"@.len() == 4);
    assert("hyprland"@.len() == 8 && "gnome"@.len() == 5 && "sway"@.len() == 4 && "kde"@.len()
        == 3);
}

/// Two signed numbers have two notations.
pub proof fn law_signed_decimals_differ(m: int, n: int)
    requires
        signed_decimal(m) == signed_decimal(n),
    ensures
        m == n,
{
    reveal_strlit("-");
    assert("-"@ =~= seq!['-']);
    let a = signed_decimal(m);
    let b = signed_decimal(n);
    if m < 0 {
        let d = crate::text::decimal((-m) as nat);
        assert(a[0] == '-');
        assert(a.subrange(1, a.len() as int) =~= d);
    } else {
        crate::text::law_decimal_is_read_back(m as nat, m as nat);
        assert(crate::text::is_digit(a[0]));
    }
    if n < 0 {
        let d = crate::text::decimal((-n) as nat);
        assert(b[0] == '-');
        assert(b.subrange(1, b.len() as int) =~= d);
    } else {
        crate::text::law_decimal_is_read_back(n as nat, n as nat);
        assert(crate::text::is_digit(b[0]));
    }
    if m < 0 && n < 0 {
        crate::text::law_decimals_differ((-m) as nat, (-n) as nat);
    } else if m >= 0 && n >= 0 {
        crate::text::law_decimals_differ(m as nat, n as nat);
    }
}

/// What a failed program complained of is told without the white space round it; where it did
/// not complain, what it said; and where it said nothing, how it ended.
pub proof fn law_complaint_is_told(
    before: Seq<char>,
    complaint: Seq<char>,
    behind: Seq<char>,
    other: Seq<char>,
    code: Option<i32>,
)
    requires
        forall|i: int| 0 <= i < before.len() ==> crate::text::is_white_space(#[trigger] before[i]),
        forall|i: int| 0 <= i < behind.len() ==> crate::text::is_white_space(#[trigger] behind[i]),
        complaint.len() > 0 ==> !crate::text::is_white_space(complaint[0])
            && !crate::text::is_white_space(complaint.last()),
    ensures
        complaint.len() > 0 ==> failure_words(before + complaint + behind, other, code)
            == complaint,
        complaint.len() > 0 ==> failure_words(before, before + complaint + behind, code)
            == complaint,
        failure_words(before, behind, code) == "process exited with code "@ + code_words(code),
        code matches Some(c) ==> code_words(code) == "Some("@ + signed_decimal(c as int) + ")"@,
        code is None ==> code_words(code) == "None"@,
{
    let set = crate::text::TrimSet::WhiteSpace;
    let none = Seq::<char>::empty();
    assert forall|i: int| 0 <= i < before.len() implies set.holds(#[trigger] before[i]) by {}
    assert forall|i: int| 0 <= i < behind.len() implies set.holds(#[trigger] behind[i]) by {}
    crate::text::law_trim_leaves_the_text(before, complaint, behind, set);
    crate::text::law_trim_leaves_the_text(before, none, none, set);
    crate::text::law_trim_leaves_the_text(none, none, behind, set);
    assert(before + none + none =~= before);
    assert(none + none + behind =~= behind);
}

/// The keys of a combination are told apart by a plus with a blank on either side; all else in
/// it stays.
pub proof fn law_keys_are_spaced(key: Seq<char>, rest: Seq<char>)
    requires
        !key.contains('+'),
    ensures
        spaced(key) == key,
        spaced(key + "+"@ + rest) == key + " + "@ + spaced(rest),
{
    reveal_strlit("+");
    assert("+"@ =~= seq!['+']);
    crate::text::law_nothing_to_replace(key, "+"@, " + "@);
    crate::text::law_replaces_where_it_stands(key, "+"@, rest, " + "@);
}

/// The command that saves a clip is that of the program beside the running one.
pub proof fn law_command_lies_beside_the_program(exe: Seq<char>)
    ensures
        trigger_command(exe) is Some <==> crate::paths::parent_path(exe) is Some,
        crate::paths::parent_path(exe) matches Some(dir) ==> crate::text::begins_with(
            trigger_command(exe).unwrap(),
            dir,
        ) && crate::text::finishes_with(
            trigger_command(exe).unwrap(),
            "wayclip-cli-linux"@ + " daemon save"@,
        ),
{
    if let Some(dir) = crate::paths::parent_path(exe) {
        reveal_strlit("wayclip-cli-linux");
        reveal_strlit("/");
        let name = "wayclip-cli-linux"@;
        let tail = " daemon save"@;
        assert(name[0] != '/');
        assert(name.subrange(0, 1)[0] == name[0]);
        assert("/"@[0] == '/');
        crate::paths::law_join_stays_below(dir, name);
        let program = crate::paths::joined(dir, name);
        let command = program + tail;
        assert(program.subrange(0, dir.len() as int) == dir);
        assert(command.subrange(0, dir.len() as int) =~= program.subrange(0, dir.len() as int));
        assert(program.subrange(program.len() - name.len(), program.len() as int) == name);
        assert(command.subrange(
            command.len() - (name + tail).len(),
            command.len() as int,
        ) =~= program.subrange(program.len() - name.len(), program.len() as int) + tail);
    }
}

/// The key is bound as it is set: on Hyprland and Sway the helper gets the keys and the command
/// that saves a clip, GNOME and KDE register the key themselves, and elsewhere the user is told
/// both. Where the running program lies nowhere, only what needs the command fails.
pub proof fn law_key_is_bound_to_the_command(
    manager: DesktopEnvironmentManager,
    exe: Seq<char>,
    r: Result<BindAction, WayclipError>,
)
    requires
        manager.binds(exe, r),
    ensures
        r is Err <==> crate::paths::parent_path(exe) is None && !(manager.desktop is Gnome) && !(
        manager.desktop is Kde),
        manager.desktop is Gnome || manager.desktop is Kde ==> r == Ok::<BindAction, WayclipError>(
            BindAction::GlobalHotkey,
        ),
        manager.desktop is Sway && r is Ok ==> (r.unwrap() matches BindAction::Run {
            program,
            arguments,
            ..
        } && program@ == "swaymsg"@ && arguments@.len() == 4 && arguments@[1]@
            == manager.trigger_combo@ && arguments@[3]@ == trigger_command(exe).unwrap()),
        manager.desktop is Hyprland && r is Ok ==> (r.unwrap() matches BindAction::Run {
            program,
            arguments,
            ..
        } && program@ == "hyprctl"@ && arguments@.len() == 2 && crate::text::has_text(
            arguments@[1]@,
            spaced(manager.trigger_combo@),
        ) && crate::text::has_text(arguments@[1]@, trigger_command(exe).unwrap())),
        manager.desktop is Unknown && r is Ok ==> (r.unwrap() matches BindAction::Tell(m)
            && crate::text::has_text(m@, manager.trigger_combo@) && crate::text::finishes_with(
            m@,
            trigger_command(exe).unwrap(),
        )),
{
    if r is Ok && trigger_command(exe) is Some {
        let command = trigger_command(exe).unwrap();
        let action = r.unwrap();
        let keys = spaced(manager.trigger_combo@);
        if let BindAction::Run { program, arguments, description } = action {
            let view = crate::text::texts_view(arguments@);
            assert(view.len() == arguments@.len());
            if manager.desktop is Sway {
                assert(view[1] == arguments@[1]@);
                assert(view[3] == arguments@[3]@);
            }
            if manager.desktop is Hyprland {
                let head = "hl.bind(\""@;
                let middle = "\", hl.dsp.exec_cmd(\""@;
                let tail = "\"))"@;
                assert(view[1] == arguments@[1]@);
                assert(arguments@[1]@ =~= head + keys + (middle + command + tail));
                assert(arguments@[1]@ =~= (head + keys + middle) + command + tail);
                crate::text::law_text_is_found_where_it_stands(
                    head,
                    keys,
                    middle + command + tail,
                );
                crate::text::law_text_is_found_where_it_stands(
                    head + keys + middle,
                    command,
                    tail,
                );
            }
        }
        if let BindAction::Tell(m) = action {
            if manager.desktop is Unknown {
                let head =
                    "No auto bind setup available for your desktop environment. Please bind "@;
                let combo = manager.trigger_combo@;
                assert(m@ =~= head + combo + (" to "@ + command));
                crate::text::law_text_is_found_where_it_stands(head, combo, " to "@ + command);
                crate::text::law_text_is_found_where_it_stands(
                    head + combo + " to "@,
                    command,
                    command,
                );
            }
        }
    }
}

/// A helper program did well exactly where it ran and reported success; else the error names the
/// program and ends with the reason.
pub proof fn law_helpers_are_judged(
    output: CommandOutput,
    desc: Seq<char>,
    r: Result<(), WayclipError>,
)
    requires
        output.is_judged(desc, r),
    ensures
        r is Ok <==> (output matches CommandOutput::Ran { success, .. } && success),
        r matches Err(e) ==> (e matches WayclipError::CLI(m) && crate::text::has_text(m@, desc)),
        output matches CommandOutput::NotRun(why) ==> (r matches Err(WayclipError::CLI(m))
            && crate::text::finishes_with(m@, why@)),
        output matches CommandOutput::Ran { success, code, stderr, stdout } ==> (!success ==> (
        r matches Err(WayclipError::CLI(m)) && crate::text::finishes_with(
            m@,
            failure_words(
                crate::bytes::lossy_text(stderr@),
                crate::bytes::lossy_text(stdout@),
                code,
            ),
        ))),
{
    match output {
        CommandOutput::NotRun(why) => {
            let head = "Failed to execute '"@;
            let whole = head + desc + "': "@ + why@;
            assert(whole =~= head + desc + ("': "@ + why@));
            crate::text::law_text_is_found_where_it_stands(head, desc, "': "@ + why@);
            crate::text::law_text_is_found_where_it_stands(head + desc + "': "@, why@, why@);
        },
        CommandOutput::Ran { success, code, stderr, stdout } => {
            let why = failure_words(
                crate::bytes::lossy_text(stderr@),
                crate::bytes::lossy_text(stdout@),
                code,
            );
            let head = "Command '"@;
            let whole = head + desc + "' failed: "@ + why;
            assert(whole =~= head + desc + ("' failed: "@ + why));
            crate::text::law_text_is_found_where_it_stands(head, desc, "' failed: "@ + why);
            crate::text::law_text_is_found_where_it_stands(head + desc + "' failed: "@, why, why);
        },
    }
}

/// The key is taken back where it was bound: by the same program, and by the same keys.
pub proof fn law_key_is_taken_back(
    manager: DesktopEnvironmentManager,
    exe: Seq<char>,
    bound: BindAction,
    taken_back: BindAction,
)
    requires
        manager.binds(exe, Ok(bound)),
        manager.unbinds(taken_back),
    ensures
        bound is GlobalHotkey <==> taken_back is GlobalHotkey,
        bound is Tell <==> taken_back is Tell,
        bound matches BindAction::Run { program, .. } ==> (taken_back matches BindAction::Run {
            program: other,
            arguments,
            ..
        } && program@ == other@ && arguments@.len() == 2 && (manager.desktop is Sway
            ==> arguments@[1]@ == manager.trigger_combo@) && (manager.desktop is Hyprland
            ==> crate::text::has_text(arguments@[1]@, spaced(manager.trigger_combo@)))),
{
    if let BindAction::Run { program, arguments, description } = taken_back {
        let view = crate::text::texts_view(arguments@);
        assert(view.len() == arguments@.len());
        assert(view[1] == arguments@[1]@);
        crate::text::law_text_is_found_where_it_stands(
            "hl.unbind(\""@,
            spaced(manager.trigger_combo@),
            "\")"@,
        );
    }
}

} // verus!
