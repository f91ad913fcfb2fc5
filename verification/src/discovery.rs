//! Which game is being played.

use crate::clock::Moment;
use crate::desktop::{DesktopEnvironmentManager, DesktopEnvironmentType, SessionType};
use crate::error::WayclipError;
use crate::search::FileSearch;
use crate::steam::values_of;
use crate::text::{
    chars_of, contains_any, ends_with, is_one_of, lowercase, parse_up_to, text_between,
};
use crate::window::{read_window, WindowProbe, WindowReading};
use vstd::prelude::*;

verus! {

/// The least time between two looks at Steam, in nanoseconds.
pub const STEAM_SCAN_MIN_INTERVAL: u64 = 60_000_000_000;

/// From which sureness on a game counts, in hundredths.
pub const CONFIDENCE_THRESHOLD: u32 = 50;

/// How sure a game is that Steam's number told, in hundredths.
pub const APPID_CONFIDENCE: u32 = 75;

/// How sure a game is that its name in Steam's library told, in hundredths.
pub const MANIFEST_NAME_CONFIDENCE: u32 = 60;

/// A game of the catalogue, by its number there.
#[derive(Clone, Copy, Debug, PartialEq, Eq, Structural)]
pub enum ClipsGames {
    /// None of the catalogue.
    Unknown,
    /// The game of this number.
    Known(u32),
}

/// What the catalogue makes of the active window.
#[derive(Clone, Copy, Debug, PartialEq, Eq, Structural)]
pub struct Recognised {
    /// The game by the title.
    pub title: ClipsGames,
    /// The game by the program.
    pub process: ClipsGames,
    /// The game by the title and the program, one after the other.
    pub combined: ClipsGames,
}

/// What is known of a drive of Steam's library.
#[derive(Debug)]
pub struct SteamDrive {
    /// The file that describes the running game, if it is on the drive.
    pub manifest: Option<Vec<u8>>,
    /// What the catalogue makes of the name in it.
    pub game: ClipsGames,
}

/// What is known of Steam.
#[derive(Debug)]
pub struct SteamFacts {
    /// The number of the running game, if one runs.
    pub app_id: Option<String>,
    /// What the catalogue makes of the number.
    pub id_game: ClipsGames,
    /// The home directory, if it is known.
    pub home: Option<String>,
    /// The file that lists the drives of the library, if it was found.
    pub library: Option<Vec<u8>>,
    /// The drives, in their order there.
    pub drives: Vec<SteamDrive>,
}

/// What a look at Steam gave.
#[derive(Debug)]
pub enum SteamProbe {
    /// None was due.
    NotDue,
    /// The processes could not be looked at.
    Unreadable,
    /// This.
    Seen(SteamFacts),
}

/// What Steam tells.
pub enum SteamOutcome {
    /// No game of the catalogue.
    Nothing,
    /// This game, this sure.
    Found(ClipsGames, int),
    /// Its library cannot be found without a home directory.
    NoHome,
}

/// The drives of Steam's library.
pub open spec fn library_drives(library: Seq<u8>) -> Seq<Seq<char>> {
    crate::steam::quoted_values(crate::steam::lines_of(library), "\"path\""@)
}

/// The name of the game that a file of Steam's library describes.
pub open spec fn manifest_name(manifest: Seq<u8>) -> Option<Seq<char>> {
    let names = crate::steam::quoted_values(crate::steam::lines_of(manifest), "\"name\""@);
    if names.len() > 0 {
        Some(names[0])
    } else {
        None
    }
}

/// What the drives tell: the first one that describes the running game decides.
pub open spec fn drives_outcome(drives: Seq<SteamDrive>) -> SteamOutcome
    decreases drives.len(),
{
    if drives.len() == 0 {
        SteamOutcome::Nothing
    } else {
        match drives[0].manifest {
            Some(m) => if manifest_name(m@) is Some {
                if drives[0].game is Unknown {
                    SteamOutcome::Nothing
                } else {
                    SteamOutcome::Found(drives[0].game, MANIFEST_NAME_CONFIDENCE as int)
                }
            } else {
                drives_outcome(drives.drop_first())
            },
            None => drives_outcome(drives.drop_first()),
        }
    }
}

/// What Steam tells: by the number of the running game if the catalogue has it, else by the
/// name in the library.
pub open spec fn steam_outcome(facts: SteamFacts) -> SteamOutcome {
    match facts.app_id {
        None => SteamOutcome::Nothing,
        Some(id) => if crate::text::parsed(id@, u64::MAX as nat) is Some && !(
        facts.id_game is Unknown) {
            SteamOutcome::Found(facts.id_game, APPID_CONFIDENCE as int)
        } else if facts.home is None {
            SteamOutcome::NoHome
        } else if facts.library is None {
            SteamOutcome::Nothing
        } else {
            drives_outcome(facts.drives@)
        },
    }
}

/// Programs that are no games, by their whole name.
pub open spec fn plain_programs() -> Seq<Seq<char>> {
    seq![
        "chrome"@,
        "chromium"@,
        "firefox"@,
        "brave"@,
        "msedge"@,
        "vivaldi"@,
        "opera"@,
        "waterfox"@,
        "librewolf"@,
        "zen"@,
        "thorium"@,
        "discord"@,
        "vesktop"@,
        "webcord"@,
        "vlc"@,
        "mpv"@,
        "spotify"@,
        "code"@,
        "kitty"@,
        "alacritty"@,
        "wezterm"@,
        "dolphin"@,
        "nautilus"@,
        "thunar"@,
        "nemo"@,
        "obs"@,
        "obs64"@,
        "obs-studio"@,
        "steamwebhelper"@,
    ]
}

/// Programs that are no games, by a part of their name.
pub open spec fn plain_program_parts() -> Seq<Seq<char>> {
    seq![
        "google-chrome"@,
        "chromium-browser"@,
        "brave-browser"@,
        "microsoft-edge"@,
        "zen-alpha"@,
        "zen-beta"@,
        "zen-browser"@,
        "discord-canary"@,
        "discord-ptb"@,
        "org.mozilla."@,
        "com.google.chrome"@,
        "com.brave.browser"@,
        "vlc"@,
        "thorium-browser"@,
        "com.obsproject.studio"@,
    ]
}

/// Parts of titles that only windows of browsers and players have.
pub open spec fn plain_title_parts() -> Seq<Seq<char>> {
    seq![
        " - google chrome"@,
        " - chromium"@,
        " - mozilla firefox"@,
        " - waterfox"@,
        " - librewolf"@,
        " - zen browser"@,
        " - brave"@,
        " - microsoft edge"@,
        " - vivaldi"@,
        " - opera"@,
        " - youtube"@,
        " - twitch"@,
        " - netflix"@,
        " - hulu"@,
        " - disney+"@,
        " - discord"@,
    ]
}

/// Whether one of the parts stands in a text.
pub open spec fn has_one_of(s: Seq<char>, parts: Seq<Seq<char>>) -> bool {
    exists|i: int| 0 <= i < parts.len() && crate::text::has_text(s, #[trigger] parts[i])
}

/// The name of a program without the ending that marks it as one.
pub open spec fn program_stem(process: Seq<char>) -> Seq<char> {
    if crate::text::finishes_with(process, ".exe"@) || crate::text::finishes_with(
        process,
        "-bin"@,
    ) {
        process.take(process.len() - 4)
    } else {
        process
    }
}

/// Whether a window cannot be that of a game. Its program and its title are given in lower
/// case.
pub open spec fn is_plain(process: Seq<char>, title: Seq<char>) -> bool {
    plain_programs().contains(program_stem(process)) || has_one_of(
        program_stem(process),
        plain_program_parts(),
    ) || has_one_of(title, plain_title_parts())
}

/// The game of a window, and how much its sureness changes. The title and the program bear
/// each other out, contradict each other, or leave the word to one of them.
pub open spec fn resolved(r: Recognised) -> Option<(ClipsGames, int)> {
    if !(r.title is Unknown) && !(r.process is Unknown) {
        if r.title == r.process {
            Some((r.title, 20))
        } else {
            Some((r.process, -20))
        }
    } else if !(r.process is Unknown) {
        Some((r.process, 10))
    } else if !(r.title is Unknown) {
        Some((r.title, 10))
    } else if !(r.combined is Unknown) {
        Some((r.combined, 5))
    } else {
        None
    }
}

/// A sureness within its bounds.
pub open spec fn clamped(confidence: int) -> int {
    if confidence < 0 {
        0
    } else if confidence > 100 {
        100
    } else {
        confidence
    }
}

/// What is known of the game.
#[derive(Debug)]
pub struct Discovery {
    /// The desktop.
    pub desktop_env: DesktopEnvironmentType,
    /// The display system.
    pub session_type: SessionType,
    /// The game.
    pub game: Option<ClipsGames>,
    /// How sure it is, in hundredths.
    pub confidence: u32,
    /// When Steam was last looked at.
    pub last_steam_scan: Option<Moment>,
    /// Whether it told a game then.
    pub last_steam_found: bool,
    /// The title of the active window.
    pub active_window_title: Option<String>,
    /// The program of the active window.
    pub active_window_process_name: Option<String>,
}

/// What a [`Discovery`] says.
pub struct DiscoveryView {
    /// The desktop.
    pub desktop_env: DesktopEnvironmentType,
    /// The display system.
    pub session_type: SessionType,
    /// The game.
    pub game: Option<ClipsGames>,
    /// How sure it is, in hundredths.
    pub confidence: int,
    /// When Steam was last looked at.
    pub last_steam_scan: Option<Moment>,
    /// Whether it told a game then.
    pub last_steam_found: bool,
    /// The title of the active window.
    pub title: Option<Seq<char>>,
    /// The program of the active window.
    pub process: Option<Seq<char>>,
}

impl DiscoveryView {
    /// Nothing is known of the game yet, on the desktop that the environment names.
    pub open spec fn fresh(session_env: Option<&str>, desktop_env: Option<&str>) -> DiscoveryView {
        DiscoveryView {
            desktop_env: crate::desktop::env_desktop(desktop_env),
            session_type: crate::desktop::env_session(session_env),
            game: None,
            confidence: 0,
            last_steam_scan: None,
            last_steam_found: false,
            title: None,
            process: None,
        }
    }

    /// The sureness lies within its bounds.
    pub open spec fn wf(self) -> bool {
        0 <= self.confidence <= 100
    }

    /// The same without a game.
    pub open spec fn cleared(self) -> DiscoveryView {
        DiscoveryView { game: None, confidence: 0, ..self }
    }

    /// The game, if it is sure enough and one of the catalogue.
    pub open spec fn confident(self) -> Option<ClipsGames> {
        match self.game {
            Some(g) => if self.confidence >= CONFIDENCE_THRESHOLD && !(g is Unknown) {
                Some(g)
            } else {
                None
            },
            None => None,
        }
    }

    /// The same after a look at the active window.
    pub open spec fn after_window(self, probe: WindowProbe) -> DiscoveryView {
        match crate::window::window_reading(probe, self.desktop_env, self.session_type) {
            Ok(w) => DiscoveryView {
                title: w.title,
                process: w.process,
                confidence: w.confidence,
                ..self
            },
            Err(_) => DiscoveryView { title: None, process: None, ..self },
        }
    }

    /// The same after the active window was matched with the catalogue.
    pub open spec fn after_match(self, seen: Recognised) -> DiscoveryView {
        match (self.title, self.process) {
            (Some(title), Some(process)) => if is_plain(
                crate::text::lower_case(process),
                crate::text::lower_case(title),
            ) {
                self.cleared()
            } else {
                match resolved(seen) {
                    Some((game, change)) => DiscoveryView {
                        game: Some(game),
                        confidence: clamped(self.confidence + change),
                        ..self
                    },
                    None => self.cleared(),
                }
            },
            _ => self.cleared(),
        }
    }

    /// The same after Steam told what it tells.
    pub open spec fn after_steam(self, outcome: SteamOutcome) -> DiscoveryView {
        match outcome {
            SteamOutcome::Found(game, confidence) => DiscoveryView {
                game: Some(game),
                confidence,
                ..self
            },
            _ => self,
        }
    }

    /// Whether Steam is to be looked at.
    pub open spec fn scan_due(self, now: Moment) -> bool {
        match self.last_steam_scan {
            Some(last) => crate::clock::minus_floor(now.ns as int, last.ns as int)
                >= STEAM_SCAN_MIN_INTERVAL,
            None => true,
        }
    }

    /// The same after the look at Steam, if one was due.
    pub open spec fn after_scan(self, steam: SteamProbe, now: Moment) -> DiscoveryView {
        if self.scan_due(now) {
            let outcome = match steam {
                SteamProbe::Seen(facts) => steam_outcome(facts),
                _ => SteamOutcome::Nothing,
            };
            DiscoveryView {
                last_steam_scan: Some(now),
                last_steam_found: outcome is Found,
                ..self.after_steam(outcome)
            }
        } else {
            self
        }
    }

    /// Whether the helpers told the active window.
    pub open spec fn sees_window(self, window: WindowProbe) -> bool {
        crate::window::window_reading(window, self.desktop_env, self.session_type) is Ok
    }

    /// The same after the game was looked for: by the active window, after Steam had its say.
    pub open spec fn discovered(
        self,
        window: WindowProbe,
        steam: SteamProbe,
        seen: Recognised,
        now: Moment,
    ) -> DiscoveryView {
        let scanned = self.after_window(window).after_scan(steam, now);
        if scanned.last_steam_found {
            scanned
        } else if self.sees_window(window) {
            scanned.after_match(seen)
        } else {
            scanned.cleared()
        }
    }
}

impl View for Discovery {
    type V = DiscoveryView;

    open spec fn view(&self) -> DiscoveryView {
        DiscoveryView {
            desktop_env: self.desktop_env,
            session_type: self.session_type,
            game: self.game,
            confidence: self.confidence as int,
            last_steam_scan: self.last_steam_scan,
            last_steam_found: self.last_steam_found,
            title: crate::text::text_option(self.active_window_title),
            process: crate::text::text_option(self.active_window_process_name),
        }
    }
}

/// The name of a program without the ending that marks it as one.
pub fn stem_of(process: &str) -> (r: String)
    ensures
        r@ == program_stem(process@),
{
    if ends_with(process, ".exe") || ends_with(process, "-bin") {
        proof {
            reveal_strlit(".exe");
            reveal_strlit("-bin");
        }
        let v: Vec<char> = chars_of(process);
        let r: String = text_between(&v, 0, v.len() - 4);
        assert(r@ =~= process@.take(process@.len() - 4));
        r
    } else {
        crate::text::text_of(&chars_of(process))
    }
}

/// Whether a window cannot be that of a game. Its program and its title are given in lower
/// case.
pub fn is_plain_window(process: &str, title: &str) -> (r: bool)
    ensures
        r == is_plain(process@, title@),
{
    let stem: String = stem_of(process);
    let whole: [&str; 29] = [
        "chrome",
        "chromium",
        "firefox",
        "brave",
        "msedge",
        "vivaldi",
        "opera",
        "waterfox",
        "librewolf",
        "zen",
        "thorium",
        "discord",
        "vesktop",
        "webcord",
        "vlc",
        "mpv",
        "spotify",
        "code",
        "kitty",
        "alacritty",
        "wezterm",
        "dolphin",
        "nautilus",
        "thunar",
        "nemo",
        "obs",
        "obs64",
        "obs-studio",
        "steamwebhelper",
    ];
    let parts: [&str; 15] = [
        "google-chrome",
        "chromium-browser",
        "brave-browser",
        "microsoft-edge",
        "zen-alpha",
        "zen-beta",
        "zen-browser",
        "discord-canary",
        "discord-ptb",
        "org.mozilla.",
        "com.google.chrome",
        "com.brave.browser",
        "vlc",
        "thorium-browser",
        "com.obsproject.studio",
    ];
    let titles: [&str; 16] = [
        " - google chrome",
        " - chromium",
        " - mozilla firefox",
        " - waterfox",
        " - librewolf",
        " - zen browser",
        " - brave",
        " - microsoft edge",
        " - vivaldi",
        " - opera",
        " - youtube",
        " - twitch",
        " - netflix",
        " - hulu",
        " - disney+",
        " - discord",
    ];
    let by_name: bool = is_one_of(stem.as_str(), &whole);
    let by_part: bool = contains_any(stem.as_str(), &parts);
    let by_title: bool = contains_any(title, &titles);
    proof {
        lemma_same_list(whole@, plain_programs(), stem@);
        lemma_same_list(parts@, plain_program_parts(), stem@);
        lemma_same_list(titles@, plain_title_parts(), title@);
    }
    by_name || by_part || by_title
}

/// A list of texts and the list of what they say hold the same texts.
proof fn lemma_same_list(names: Seq<&str>, said: Seq<Seq<char>>, s: Seq<char>)
    requires
        names.len() == said.len(),
        forall|i: int| 0 <= i < names.len() ==> (#[trigger] names[i])@ == said[i],
    ensures
        (exists|i: int| 0 <= i < names.len() && (#[trigger] names[i])@ == s) == said.contains(s),
        (exists|i: int|
            0 <= i < names.len() && crate::text::has_text(s, (#[trigger] names[i])@)) == has_one_of(
            s,
            said,
        ),
{
    if said.contains(s) {
        let i = choose|i: int| 0 <= i < said.len() && said[i] == s;
        assert(names[i]@ == s);
    }
    if exists|i: int| 0 <= i < names.len() && (#[trigger] names[i])@ == s {
        let i = choose|i: int| 0 <= i < names.len() && (#[trigger] names[i])@ == s;
        assert(said[i] == s);
    }
    if has_one_of(s, said) {
        let i = choose|i: int| 0 <= i < said.len() && crate::text::has_text(s, #[trigger] said[i]);
        assert(crate::text::has_text(s, names[i]@));
    }
    if exists|i: int| 0 <= i < names.len() && crate::text::has_text(s, (#[trigger] names[i])@) {
        let i = choose|i: int|
            0 <= i < names.len() && crate::text::has_text(s, (#[trigger] names[i])@);
        assert(crate::text::has_text(s, said[i]));
    }
}

/// The game of a window, and how much its sureness changes, in hundredths.
pub fn resolve_game(seen: Recognised) -> (r: Option<(ClipsGames, i32)>)
    ensures
        match (r, resolved(seen)) {
            (Some(a), Some(b)) => a.0 == b.0 && a.1 == b.1,
            (None, None) => true,
            _ => false,
        },
{
    let title_known: bool = seen.title != ClipsGames::Unknown;
    let process_known: bool = seen.process != ClipsGames::Unknown;
    if title_known && process_known {
        if seen.title == seen.process {
            Some((seen.title, 20))
        } else {
            Some((seen.process, -20))
        }
    } else if process_known {
        Some((seen.process, 10))
    } else if title_known {
        Some((seen.title, 10))
    } else if seen.combined != ClipsGames::Unknown {
        Some((seen.combined, 5))
    } else {
        None
    }
}

impl Discovery {
    /// Nothing is known of the game yet, on the desktop that the environment names.
    pub fn new(session_env: Option<&str>, desktop_env: Option<&str>) -> (r: Discovery)
        ensures
            r@ == DiscoveryView::fresh(session_env, desktop_env),
            r@.wf(),
    {
        let (desktop_env, session_type) = DesktopEnvironmentManager::get_env_session(
            session_env,
            desktop_env,
        );
        Discovery {
            desktop_env,
            session_type,
            game: None,
            confidence: 0,
            last_steam_scan: None,
            last_steam_found: false,
            active_window_title: None,
            active_window_process_name: None,
        }
    }

    /// Changes the sureness, within its bounds.
    pub fn adjust_confidence(&mut self, delta: i32)
        ensures
            final(self)@ == (DiscoveryView {
                confidence: clamped(old(self)@.confidence + delta),
                ..old(self)@
            }),
            final(self)@.wf(),
    {
        let sum: i64 = self.confidence as i64 + delta as i64;
        self.confidence = if sum < 0 {
            0
        } else if sum > 100 {
            100
        } else {
            sum as u32
        };
    }

    /// Forgets the game.
    pub fn clear_detection(&mut self)
        ensures
            final(self)@ == old(self)@.cleared(),
            final(self)@.wf(),
    {
        self.game = None;
        self.confidence = 0;
    }

    /// The game, if it is sure enough and one of the catalogue.
    pub fn confident_game(&self) -> (r: Option<ClipsGames>)
        ensures
            r == self@.confident(),
    {
        if self.confidence >= CONFIDENCE_THRESHOLD {
            match self.game {
                Some(g) => if g != ClipsGames::Unknown {
                    Some(g)
                } else {
                    None
                },
                None => None,
            }
        } else {
            None
        }
    }

    /// Whether Steam is to be looked at.
    pub fn steam_scan_due(&self, now: Moment) -> (r: bool)
        ensures
            r == self@.scan_due(now),
    {
        match self.last_steam_scan {
            Some(last) => now.duration_since(last) >= STEAM_SCAN_MIN_INTERVAL,
            None => true,
        }
    }

    /// Looks for the game. What the helper programs told of the active window is given, what
    /// the catalogue makes of that window, and what Steam tells, if a look at it was due.
    pub fn discover_game(
        &mut self,
        window: &WindowProbe,
        steam: &SteamProbe,
        seen: Recognised,
        now: Moment,
    )
        ensures
            final(self)@ == old(self)@.discovered(*window, *steam, seen, now),
            old(self)@.wf() ==> final(self)@.wf(),
    {
        let window_ok: bool = self.use_active_window(window).is_ok();
        let due: bool = self.steam_scan_due(now);
        let steam_found: bool = if due {
            let found: bool = match steam {
                SteamProbe::Seen(facts) => match self.use_active_steam_app(facts) {
                    Ok(f) => f,
                    Err(_) => false,
                },
                _ => false,
            };
            self.last_steam_scan = Some(now);
            self.last_steam_found = found;
            found
        } else {
            self.last_steam_found
        };
        if !steam_found {
            if window_ok {
                self.match_window_title_process(seen);
            } else {
                self.clear_detection();
            }
        }
    }

    /// Matches the active window with the catalogue.
    pub fn match_window_title_process(&mut self, seen: Recognised)
        ensures
            final(self)@ == old(self)@.after_match(seen),
            final(self)@.wf(),
    {
        let plain: Option<bool> = match (
            &self.active_window_title,
            &self.active_window_process_name,
        ) {
            (Some(title), Some(process)) => Some(
                is_plain_window(
                    lowercase(process.as_str()).as_str(),
                    lowercase(title.as_str()).as_str(),
                ),
            ),
            _ => None,
        };
        match plain {
            Some(false) => match resolve_game(seen) {
                Some((game, delta)) => {
                    self.adjust_confidence(delta);
                    self.game = Some(game);
                },
                None => self.clear_detection(),
            },
            _ => self.clear_detection(),
        }
    }

    /// Takes over what Steam tells. Says whether that is a game.
    pub fn use_active_steam_app(&mut self, facts: &SteamFacts) -> (r: Result<bool, WayclipError>)
        ensures
            final(self)@ == old(self)@.after_steam(steam_outcome(*facts)),
            match steam_outcome(*facts) {
                SteamOutcome::Nothing => r == Ok::<bool, WayclipError>(false),
                SteamOutcome::Found(_, _) => r == Ok::<bool, WayclipError>(true),
                SteamOutcome::NoHome => r matches Err(WayclipError::NotFound(m)) && m@
                    == "No home dir found"@,
            },
            old(self)@.wf() ==> final(self)@.wf(),
    {
        let app_id: &String = match &facts.app_id {
            Some(id) => id,
            None => {
                return Ok(false);
            },
        };
        if parse_up_to(app_id.as_str(), u64::MAX).is_some() && facts.id_game
            != ClipsGames::Unknown {
            self.game = Some(facts.id_game);
            self.confidence = APPID_CONFIDENCE;
            proof {
                lemma_found_is_sure(*facts);
            }
            return Ok(true);
        }
        if facts.home.is_none() {
            return Err(WayclipError::NotFound("No home dir found".to_owned()));
        }
        if facts.library.is_none() {
            return Ok(false);
        }
        proof {
            lemma_found_is_sure(*facts);
        }
        let ghost start = *self;
        let mut i: usize = 0;
        assert(facts.drives@.skip(0) =~= facts.drives@);
        while i < facts.drives.len()
            invariant
                *self == start,
                i <= facts.drives@.len(),
                start == *old(self),
                steam_outcome(*facts) == drives_outcome(facts.drives@),
                drives_outcome(facts.drives@) == drives_outcome(facts.drives@.skip(i as int)),
                steam_outcome(*facts) matches SteamOutcome::Found(_, c) ==> 0 <= c <= 100,
            decreases facts.drives@.len() - i,
        {
            let drive: &SteamDrive = &facts.drives[i];
            let name: Option<String> = match &drive.manifest {
                Some(m) => Discovery::get_game_name(m.as_slice()),
                None => None,
            };
            if name.is_some() {
                if drive.game == ClipsGames::Unknown {
                    return Ok(false);
                }
                self.game = Some(drive.game);
                self.confidence = MANIFEST_NAME_CONFIDENCE;
                return Ok(true);
            }
            assert(facts.drives@.skip(i as int).drop_first() =~= facts.drives@.skip(i + 1));
            i = i + 1;
        }
        Ok(false)
    }

    /// Begins the search for a file below some directories, each known by its number.
    pub fn find_file_in_dirs(base_dirs: &Vec<u64>, target_file: &str, max_depth: usize) -> (r:
        FileSearch)
        ensures
            r.target@ == target_file@,
            r.max_depth == max_depth,
            forall|tree: crate::search::Tree| #[trigger]
                r.outcome(tree) == crate::search::file_below_any(
                    tree,
                    target_file@,
                    max_depth as int,
                    base_dirs@,
                ),
    {
        FileSearch::new(base_dirs, target_file, max_depth)
    }

    /// The drives of Steam's library, given the file that lists them.
    pub fn get_steam_drives(library: &[u8]) -> (r: Vec<String>)
        ensures
            crate::text::texts_view(r@) == library_drives(library@),
    {
        values_of(library, "\"path\"")
    }

    /// The name of the game that a file of Steam's library describes.
    pub fn get_game_name(manifest: &[u8]) -> (r: Option<String>)
        ensures
            crate::text::text_option(r) == manifest_name(manifest@),
    {
        let mut names: Vec<String> = values_of(manifest, "\"name\"");
        let ghost all = crate::text::texts_view(names@);
        if names.len() > 0 {
            let first: String = names.remove(0);
            assert(first@ == all[0]);
            Some(first)
        } else {
            None
        }
    }

    /// Takes over what the helper programs told of the active window.
    pub fn use_active_window(&mut self, probe: &WindowProbe) -> (r: Result<(), WayclipError>)
        ensures
            final(self)@ == old(self)@.after_window(*probe),
            match (
                crate::window::window_reading(
                    *probe,
                    old(self).desktop_env,
                    old(self).session_type,
                ),
                r,
            ) {
                (Ok(_), Ok(_)) => true,
                (Err(why), Err(e)) => why.is_told_by(e),
                _ => false,
            },
            old(self)@.wf() ==> final(self)@.wf(),
    {
        self.active_window_title = None;
        self.active_window_process_name = None;
        match read_window(probe, self.desktop_env, self.session_type) {
            Ok(reading) => {
                let WindowReading { title, process, confidence } = reading;
                self.active_window_title = title;
                self.active_window_process_name = process;
                self.confidence = confidence;
                proof {
                    lemma_reading_is_sure(*probe, old(self).desktop_env, old(self).session_type);
                }
                Ok(())
            },
            Err(e) => Err(e),
        }
    }
}

proof fn lemma_drives_found_is_sure(drives: Seq<SteamDrive>)
    ensures
        drives_outcome(drives) matches SteamOutcome::Found(g, c) ==> 0 <= c <= 100 && !(
        g is Unknown),
    decreases drives.len(),
{
    if drives.len() > 0 {
        lemma_drives_found_is_sure(drives.drop_first());
    }
}

proof fn lemma_found_is_sure(facts: SteamFacts)
    ensures
        steam_outcome(facts) matches SteamOutcome::Found(g, c) ==> 0 <= c <= 100 && !(
        g is Unknown),
{
    lemma_drives_found_is_sure(facts.drives@);
}

proof fn lemma_reading_is_sure(
    probe: WindowProbe,
    desktop: DesktopEnvironmentType,
    session: SessionType,
)
    ensures
        crate::window::window_reading(probe, desktop, session) matches Ok(w) ==> 0 <= w.confidence
            <= 100,
{
}

/// A game that counts is sure enough and one of the catalogue.
pub proof fn law_confident_game_is_known(d: DiscoveryView)
    ensures
        d.confident() matches Some(g) ==> !(g is Unknown) && d.confidence >= CONFIDENCE_THRESHOLD
            && d.game == Some(g),
        d.confidence < CONFIDENCE_THRESHOLD ==> d.confident() is None,
{
}

/// However the game is looked for, the sureness stays within its bounds.
pub proof fn law_confidence_stays_bounded(
    d: DiscoveryView,
    window: WindowProbe,
    steam: SteamProbe,
    seen: Recognised,
    now: Moment,
)
    requires
        d.wf(),
    ensures
        d.after_window(window).wf(),
        d.discovered(window, steam, seen, now).wf(),
{
    lemma_reading_is_sure(window, d.desktop_env, d.session_type);
    if let SteamProbe::Seen(facts) = steam {
        lemma_found_is_sure(facts);
    }
}

/// A browser, a player or another plain program never counts as a game.
pub proof fn law_plain_window_is_no_game(d: DiscoveryView, seen: Recognised)
    requires
        d.title is Some,
        d.process is Some,
        is_plain(
            crate::text::lower_case(d.process.unwrap()),
            crate::text::lower_case(d.title.unwrap()),
        ),
    ensures
        d.after_match(seen).confident() is None,
        d.after_match(seen).game is None,
{
}

/// A title and a program that name two games make neither of them count, unless the
/// window fills the screen.
pub proof fn law_contradiction_lowers_confidence(d: DiscoveryView, seen: Recognised)
    requires
        d.title is Some,
        d.process is Some,
        !is_plain(
            crate::text::lower_case(d.process.unwrap()),
            crate::text::lower_case(d.title.unwrap()),
        ),
        !(seen.title is Unknown),
        !(seen.process is Unknown),
        seen.title != seen.process,
    ensures
        d.confidence == crate::window::sureness(false) ==> d.after_match(seen).confident() is None,
        d.confidence == crate::window::sureness(true) ==> d.after_match(seen).confident() == Some(
            seen.process,
        ),
{
}

/// After a look at Steam the next one is due only when the least time has passed, and until
/// then whether it told a game stands, whatever is looked for meanwhile.
pub proof fn law_steam_scans_are_spaced(
    d: DiscoveryView,
    window: WindowProbe,
    steam: SteamProbe,
    seen: Recognised,
    now: Moment,
    window_later: WindowProbe,
    steam_later: SteamProbe,
    seen_later: Recognised,
    later: Moment,
)
    requires
        d.scan_due(now),
        now.ns <= later.ns < now.ns + STEAM_SCAN_MIN_INTERVAL,
    ensures
        !d.discovered(window, steam, seen, now).scan_due(later),
        d.discovered(window, steam, seen, now).discovered(
            window_later,
            steam_later,
            seen_later,
            later,
        ).last_steam_found == d.discovered(window, steam, seen, now).last_steam_found,
        d.discovered(window, steam, seen, now).discovered(
            window_later,
            steam_later,
            seen_later,
            later,
        ).last_steam_scan == Some(now),
{
}

/// Where Steam tells a game, that is the game, whatever the active window is.
pub proof fn law_steam_goes_first(
    d: DiscoveryView,
    window: WindowProbe,
    facts: SteamFacts,
    seen: Recognised,
    now: Moment,
)
    requires
        d.scan_due(now),
        steam_outcome(facts) is Found,
    ensures
        d.discovered(window, SteamProbe::Seen(facts), seen, now).game == Some(
            steam_outcome(facts)->Found_0,
        ),
        d.discovered(window, SteamProbe::Seen(facts), seen, now).confident() == Some(
            steam_outcome(facts)->Found_0,
        ),
{
    lemma_found_is_sure(facts);
    lemma_found_counts(facts);
}

proof fn lemma_found_counts(facts: SteamFacts)
    ensures
        steam_outcome(facts) matches SteamOutcome::Found(_, c) ==> c >= CONFIDENCE_THRESHOLD,
{
    lemma_drives_found_counts(facts.drives@);
}

proof fn lemma_drives_found_counts(drives: Seq<SteamDrive>)
    ensures
        drives_outcome(drives) matches SteamOutcome::Found(_, c) ==> c >= CONFIDENCE_THRESHOLD,
    decreases drives.len(),
{
    if drives.len() > 0 {
        lemma_drives_found_counts(drives.drop_first());
    }
}

/// From half sure on a game of the catalogue counts.
pub proof fn law_half_sure_counts(d: DiscoveryView, number: u32)
    ensures
        d.game == Some(ClipsGames::Known(number)) && d.confidence >= 50 ==> d.confident() == Some(
            ClipsGames::Known(number),
        ),
        d.confidence < 50 ==> d.confident() is None,
        d.game is None || d.game == Some(ClipsGames::Unknown) ==> d.confident() is None,
{
}

/// A sureness is changed by what is added, as long as that leaves it between none and a hundred
/// hundredths; else it stays at the bound that was passed.
pub proof fn law_sureness_is_bounded(confidence: int, less: int)
    requires
        less <= confidence,
    ensures
        0 <= confidence <= 100 ==> clamped(confidence) == confidence,
        confidence < 0 ==> clamped(confidence) == 0,
        confidence > 100 ==> clamped(confidence) == 100,
        clamped(less) <= clamped(confidence),
{
}

/// What the title and the program of a window tell is weighed: that both name the same game
/// makes it twenty hundredths surer, that one of them names a game ten, that only both together
/// do five; where they name two games, the program is believed, twenty hundredths less.
/// Otherwise there is no game.
pub proof fn law_title_and_program_are_weighed(d: DiscoveryView, seen: Recognised)
    requires
        d.title is Some,
        d.process is Some,
        !is_plain(
            crate::text::lower_case(d.process.unwrap()),
            crate::text::lower_case(d.title.unwrap()),
        ),
        20 <= d.confidence <= 80,
    ensures
        ({
            let after = d.after_match(seen);
            let by_title = seen.title is Known;
            let by_program = seen.process is Known;
            let change = after.confidence - d.confidence;
            &&& by_title && by_program && seen.title == seen.process ==> after.game == Some(
                seen.title,
            ) && change == 20
            &&& by_title && by_program && seen.title != seen.process ==> after.game == Some(
                seen.process,
            ) && change == -20
            &&& by_program && !by_title ==> after.game == Some(seen.process) && change == 10
            &&& by_title && !by_program ==> after.game == Some(seen.title) && change == 10
            &&& !by_title && !by_program && seen.combined is Known ==> after.game == Some(
                seen.combined,
            ) && change == 5
            &&& !by_title && !by_program && !(seen.combined is Known) ==> after.game is None
                && after.confidence == 0
        }),
{
}

/// A window of which the title or the program is not known is matched with no game.
pub proof fn law_half_a_window_is_no_game(d: DiscoveryView, seen: Recognised)
    requires
        d.title is None || d.process is None,
    ensures
        d.after_match(seen).game is None,
        d.after_match(seen).confidence == 0,
{
}

/// Matching a window, and asking Steam, leave what is known of the window and of the desktop
/// as it was.
pub proof fn law_matching_keeps_the_window(
    d: DiscoveryView,
    seen: Recognised,
    outcome: SteamOutcome,
)
    ensures
        ({
            let matched = d.after_match(seen);
            let asked = d.after_steam(outcome);
            &&& matched.title == d.title && asked.title == d.title
            &&& matched.process == d.process && asked.process == d.process
            &&& matched.desktop_env == d.desktop_env && asked.desktop_env == d.desktop_env
            &&& matched.session_type == d.session_type && asked.session_type == d.session_type
            &&& matched.last_steam_scan == d.last_steam_scan
            &&& asked.last_steam_scan == d.last_steam_scan
            &&& matched.last_steam_found == d.last_steam_found
            &&& asked.last_steam_found == d.last_steam_found
        }),
{
}

/// A look at the active window takes over what the helpers told of it; where they told nothing,
/// nothing of an earlier window is left.
pub proof fn law_window_replaces_the_earlier_one(d: DiscoveryView, window: WindowProbe)
    ensures
        crate::window::window_reading(window, d.desktop_env, d.session_type) matches Ok(w) ==> ({
            let after = d.after_window(window);
            after.title == w.title && after.process == w.process && after.confidence
                == w.confidence
        }),
        crate::window::window_reading(window, d.desktop_env, d.session_type) is Err ==> ({
            let after = d.after_window(window);
            after.title is None && after.process is None
        }),
        d.after_window(window).game == d.game,
{
}

/// Unless Steam told the game, what was known of it before does not matter: two searches that
/// see the same come to the same.
pub proof fn law_search_starts_afresh(
    d: DiscoveryView,
    e: DiscoveryView,
    window: WindowProbe,
    steam: SteamProbe,
    seen: Recognised,
    now: Moment,
)
    requires
        d.desktop_env == e.desktop_env,
        d.session_type == e.session_type,
        d.last_steam_scan == e.last_steam_scan,
        d.last_steam_found == e.last_steam_found,
        !d.last_steam_found || d.scan_due(now),
    ensures
        d.discovered(window, steam, seen, now) == e.discovered(window, steam, seen, now),
{
}

/// Where neither Steam nor the active window tells anything, there is no game.
pub proof fn law_nothing_told_is_no_game(
    d: DiscoveryView,
    window: WindowProbe,
    steam: SteamProbe,
    seen: Recognised,
    now: Moment,
)
    requires
        !d.sees_window(window),
        !(steam is Seen) || (steam matches SteamProbe::Seen(facts) && facts.app_id is None),
        !d.last_steam_found || d.scan_due(now),
    ensures
        d.discovered(window, steam, seen, now).game is None,
        d.discovered(window, steam, seen, now).confidence == 0,
        d.discovered(window, steam, seen, now).title is None,
        d.discovered(window, steam, seen, now).process is None,
{
}

/// A game that Steam told stays until the next look at Steam, whatever the windows are.
pub proof fn law_steam_game_stays(
    d: DiscoveryView,
    window: WindowProbe,
    steam: SteamProbe,
    seen: Recognised,
    now: Moment,
)
    requires
        d.last_steam_found,
        !d.scan_due(now),
    ensures
        d.discovered(window, steam, seen, now).game == d.game,
        d.discovered(window, steam, seen, now).last_steam_found,
{
}

/// Steam is looked at once a minute, and at once where it never was.
pub proof fn law_steam_is_asked_every_minute(d: DiscoveryView, now: Moment)
    ensures
        d.last_steam_scan is None ==> d.scan_due(now),
        d.last_steam_scan matches Some(last) ==> (d.scan_due(now) <==> now.ns >= last.ns
            + 60_000_000_000),
{
}

/// Without a running game Steam tells none. The number of the running game decides where the
/// catalogue has it, whatever the library says, and makes the game seventy-five hundredths sure.
pub proof fn law_steam_number_decides(facts: SteamFacts, number: nat)
    ensures
        facts.app_id is None ==> steam_outcome(facts) is Nothing,
        number <= u64::MAX && facts.app_id is Some && facts.app_id.unwrap()@
            == crate::text::decimal(number) && facts.id_game is Known ==> steam_outcome(facts)
            == SteamOutcome::Found(facts.id_game, 75),
        facts.app_id is Some && !(facts.id_game is Known) && facts.home is None ==> steam_outcome(
            facts,
        ) is NoHome,
        facts.app_id is Some && !(facts.id_game is Known) && facts.home is Some
            && facts.library is None ==> steam_outcome(facts) is Nothing,
        facts.app_id is Some && !(facts.id_game is Known) && facts.home is Some
            && facts.library is Some ==> steam_outcome(facts) == drives_outcome(facts.drives@),
{
    crate::text::law_decimal_is_read_back(number, u64::MAX as nat);
}

/// Of the drives the first that names the running game decides: the game of the catalogue by
/// that name is sixty hundredths sure, and a name that the catalogue lacks ends the search.
pub proof fn law_first_drive_that_names_the_game_decides(drives: Seq<SteamDrive>, k: int)
    requires
        0 <= k <= drives.len(),
        forall|i: int|
            0 <= i < k ==> ((#[trigger] drives[i]).manifest is None || manifest_name(
                drives[i].manifest.unwrap()@,
            ) is None),
    ensures
        k == drives.len() ==> drives_outcome(drives) is Nothing,
        k < drives.len() && drives[k].manifest is Some && manifest_name(
            drives[k].manifest.unwrap()@,
        ) is Some ==> (if drives[k].game is Known {
            drives_outcome(drives) == SteamOutcome::Found(drives[k].game, 60)
        } else {
            drives_outcome(drives) is Nothing
        }),
    decreases k,
{
    if k > 0 {
        let rest = drives.drop_first();
        assert(drives[0].manifest is None || manifest_name(
            drives[0].manifest.unwrap()@,
        ) is None);
        assert forall|i: int| 0 <= i < k - 1 implies ((#[trigger] rest[i]).manifest is None
            || manifest_name(rest[i].manifest.unwrap()@) is None) by {
            assert(rest[i] == drives[i + 1]);
        }
        law_first_drive_that_names_the_game_decides(rest, k - 1);
        if k < drives.len() {
            assert(rest[k - 1] == drives[k]);
        }
    }
}

/// A program is known with and without the ending that marks it as one, and without such an
/// ending by its whole name.
pub proof fn law_program_ending_is_dropped(name: Seq<char>)
    ensures
        program_stem(name + ".exe"@) == name,
        program_stem(name + "-bin"@) == name,
        !crate::text::finishes_with(name, ".exe"@) && !crate::text::finishes_with(name, "-bin"@)
            ==> program_stem(name) == name,
{
    reveal_strlit(".exe");
    reveal_strlit("-bin");
    crate::text::law_text_is_found_where_it_stands(name, ".exe"@, name);
    crate::text::law_text_is_found_where_it_stands(name, "-bin"@, name);
    assert((name + ".exe"@).take(name.len() as int) =~= name);
    assert((name + "-bin"@).take(name.len() as int) =~= name);
}

/// Browsers, chats, players, editors, terminals, file managers and recorders are no games,
/// whatever their titles, with and without the ending of a program.
pub proof fn law_plain_programs_are_no_games(name: Seq<char>, title: Seq<char>)
    requires
        name == "chrome"@ || name == "chromium"@ || name == "firefox"@ || name == "brave"@ || name
            == "msedge"@ || name == "vivaldi"@ || name == "opera"@ || name == "waterfox"@ || name
            == "librewolf"@ || name == "zen"@ || name == "thorium"@ || name == "discord"@ || name
            == "vesktop"@ || name == "webcord"@ || name == "vlc"@ || name == "mpv"@ || name
            == "spotify"@ || name == "code"@ || name == "kitty"@ || name == "alacritty"@ || name
            == "wezterm"@ || name == "dolphin"@ || name == "nautilus"@ || name == "thunar"@ || name
            == "nemo"@ || name == "obs"@ || name == "obs64"@ || name == "obs-studio"@ || name
            == "steamwebhelper"@,
    ensures
        is_plain(name + ".exe"@, title),
        is_plain(name + "-bin"@, title),
        !crate::text::finishes_with(name, ".exe"@) && !crate::text::finishes_with(name, "-bin"@)
            ==> is_plain(name, title),
{
    law_program_ending_is_dropped(name);
    let all = plain_programs();
    assert(all[0] == "chrome"@ && all[1] == "chromium"@ && all[2] == "firefox"@ && all[3]
        == "brave"@ && all[4] == "msedge"@ && all[5] == "vivaldi"@ && all[6] == "opera"@ && all[7]
        == "waterfox"@ && all[8] == "librewolf"@ && all[9] == "zen"@);
    assert(all[10] == "thorium"@ && all[11] == "discord"@ && all[12] == "vesktop"@ && all[13]
        == "webcord"@ && all[14] == "vlc"@ && all[15] == "mpv"@ && all[16] == "spotify"@ && all[17]
        == "code"@ && all[18] == "kitty"@ && all[19] == "alacritty"@);
    assert(all[20] == "wezterm"@ && all[21] == "dolphin"@ && all[22] == "nautilus"@ && all[23]
        == "thunar"@ && all[24] == "nemo"@ && all[25] == "obs"@ && all[26] == "obs64"@ && all[27]
        == "obs-studio"@ && all[28] == "steamwebhelper"@);
}

/// A program is no game where a part of its name is that of a packaged browser, chat, player or
/// recorder, wherever the part stands.
pub proof fn law_packaged_programs_are_no_games(
    before: Seq<char>,
    part: Seq<char>,
    behind: Seq<char>,
    title: Seq<char>,
)
    requires
        part == "google-chrome"@ || part == "chromium-browser"@ || part == "brave-browser"@ || part
            == "microsoft-edge"@ || part == "zen-alpha"@ || part == "zen-beta"@ || part
            == "zen-browser"@ || part == "discord-canary"@ || part == "discord-ptb"@ || part
            == "org.mozilla."@ || part == "com.google.chrome"@ || part == "com.brave.browser"@
            || part == "vlc"@ || part == "thorium-browser"@ || part == "com.obsproject.studio"@,
        program_stem(before + part + behind) == before + part + behind,
    ensures
        is_plain(before + part + behind, title),
{
    crate::text::law_text_is_found_where_it_stands(before, part, behind);
    let all = plain_program_parts();
    assert(all[0] == "google-chrome"@ && all[1] == "chromium-browser"@ && all[2]
        == "brave-browser"@ && all[3] == "microsoft-edge"@ && all[4] == "zen-alpha"@ && all[5]
        == "zen-beta"@ && all[6] == "zen-browser"@ && all[7] == "discord-canary"@);
    assert(all[8] == "discord-ptb"@ && all[9] == "org.mozilla."@ && all[10]
        == "com.google.chrome"@ && all[11] == "com.brave.browser"@ && all[12] == "vlc"@ && all[13]
        == "thorium-browser"@ && all[14] == "com.obsproject.studio"@);
}

/// A window is no game where its title names a browser or a site of films behind a dash,
/// wherever that stands.
pub proof fn law_titles_of_browsers_are_no_games(
    process: Seq<char>,
    before: Seq<char>,
    part: Seq<char>,
    behind: Seq<char>,
)
    requires
        part == " - google chrome"@ || part == " - chromium"@ || part == " - mozilla firefox"@
            || part == " - waterfox"@ || part == " - librewolf"@ || part == " - zen browser"@
            || part == " - brave"@ || part == " - microsoft edge"@ || part == " - vivaldi"@ || part
            == " - opera"@ || part == " - youtube"@ || part == " - twitch"@ || part
            == " - netflix"@ || part == " - hulu"@ || part == " - disney+"@ || part
            == " - discord"@,
    ensures
        is_plain(process, before + part + behind),
{
    crate::text::law_text_is_found_where_it_stands(before, part, behind);
    let all = plain_title_parts();
    assert(all[0] == " - google chrome"@ && all[1] == " - chromium"@ && all[2]
        == " - mozilla firefox"@ && all[3] == " - waterfox"@ && all[4] == " - librewolf"@ && all[5]
        == " - zen browser"@ && all[6] == " - brave"@ && all[7] == " - microsoft edge"@);
    assert(all[8] == " - vivaldi"@ && all[9] == " - opera"@ && all[10] == " - youtube"@ && all[11]
        == " - twitch"@ && all[12] == " - netflix"@ && all[13] == " - hulu"@ && all[14]
        == " - disney+"@ && all[15] == " - discord"@);
}

/// A window counts as plain for nothing but the name of its program, a part of that name, or a
/// part of its title, each of which is one of a few.
pub proof fn law_only_listed_windows_are_plain(process: Seq<char>, title: Seq<char>)
    requires
        is_plain(process, title),
    ensures
        ({
            let stem = program_stem(process);
            ||| stem == "chrome"@
            ||| stem == "chromium"@
            ||| stem == "firefox"@
            ||| stem == "brave"@
            ||| stem == "msedge"@
            ||| stem == "vivaldi"@
            ||| stem == "opera"@
            ||| stem == "waterfox"@
            ||| stem == "librewolf"@
            ||| stem == "zen"@
            ||| stem == "thorium"@
            ||| stem == "discord"@
            ||| stem == "vesktop"@
            ||| stem == "webcord"@
            ||| stem == "vlc"@
            ||| stem == "mpv"@
            ||| stem == "spotify"@
            ||| stem == "code"@
            ||| stem == "kitty"@
            ||| stem == "alacritty"@
            ||| stem == "wezterm"@
            ||| stem == "dolphin"@
            ||| stem == "nautilus"@
            ||| stem == "thunar"@
            ||| stem == "nemo"@
            ||| stem == "obs"@
            ||| stem == "obs64"@
            ||| stem == "obs-studio"@
            ||| stem == "steamwebhelper"@
            ||| crate::text::has_text(stem, "google-chrome"@)
            ||| crate::text::has_text(stem, "chromium-browser"@)
            ||| crate::text::has_text(stem, "brave-browser"@)
            ||| crate::text::has_text(stem, "microsoft-edge"@)
            ||| crate::text::has_text(stem, "zen-alpha"@)
            ||| crate::text::has_text(stem, "zen-beta"@)
            ||| crate::text::has_text(stem, "zen-browser"@)
            ||| crate::text::has_text(stem, "discord-canary"@)
            ||| crate::text::has_text(stem, "discord-ptb"@)
            ||| crate::text::has_text(stem, "org.mozilla."@)
            ||| crate::text::has_text(stem, "com.google.chrome"@)
            ||| crate::text::has_text(stem, "com.brave.browser"@)
            ||| crate::text::has_text(stem, "vlc"@)
            ||| crate::text::has_text(stem, "thorium-browser"@)
            ||| crate::text::has_text(stem, "com.obsproject.studio"@)
            ||| crate::text::has_text(title, " - google chrome"@)
            ||| crate::text::has_text(title, " - chromium"@)
            ||| crate::text::has_text(title, " - mozilla firefox"@)
            ||| crate::text::has_text(title, " - waterfox"@)
            ||| crate::text::has_text(title, " - librewolf"@)
            ||| crate::text::has_text(title, " - zen browser"@)
            ||| crate::text::has_text(title, " - brave"@)
            ||| crate::text::has_text(title, " - microsoft edge"@)
            ||| crate::text::has_text(title, " - vivaldi"@)
            ||| crate::text::has_text(title, " - opera"@)
            ||| crate::text::has_text(title, " - youtube"@)
            ||| crate::text::has_text(title, " - twitch"@)
            ||| crate::text::has_text(title, " - netflix"@)
            ||| crate::text::has_text(title, " - hulu"@)
            ||| crate::text::has_text(title, " - disney+"@)
            ||| crate::text::has_text(title, " - discord"@)
        }),
{
    let stem = program_stem(process);
    if plain_programs().contains(stem) {
        let i = choose|i: int| 0 <= i < plain_programs().len() && plain_programs()[i] == stem;
        assert(0 <= i < 29);
    }
}

} // verus!
