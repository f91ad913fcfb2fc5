use wayclip_daemon::clock::Moment;
use wayclip_daemon::discovery::{
    is_plain_window, resolve_game, stem_of, ClipsGames, Discovery, Recognised, SteamDrive,
    SteamFacts, SteamProbe,
};
use wayclip_daemon::error::WayclipError;
use wayclip_daemon::window::{HyprctlActiveWindow, WindowProbe};

const A: ClipsGames = ClipsGames::Known(1);
const B: ClipsGames = ClipsGames::Known(2);
const U: ClipsGames = ClipsGames::Unknown;

fn seen(title: ClipsGames, process: ClipsGames, combined: ClipsGames) -> Recognised {
    Recognised { title, process, combined }
}

fn hyprland() -> Discovery {
    Discovery::new(Some("wayland"), Some("Hyprland"))
}

fn window(title: &str, class: &str, fullscreen: u32) -> WindowProbe {
    WindowProbe::Hyprland(Some(HyprctlActiveWindow {
        fullscreen,
        title: title.to_string(),
        class: class.to_string(),
    }))
}

fn matched(title: &str, class: &str, fullscreen: u32, r: Recognised) -> Discovery {
    let mut d = hyprland();
    assert!(d.use_active_window(&window(title, class, fullscreen)).is_ok());
    d.match_window_title_process(r);
    d
}

fn facts(app_id: Option<&str>) -> SteamFacts {
    SteamFacts {
        app_id: app_id.map(str::to_string),
        id_game: U,
        home: Some("/home/me".to_string()),
        library: Some(b"\"path\" \"/a\"\n\"path\" \"/b\"\n".to_vec()),
        drives: vec![
            SteamDrive { manifest: None, game: U },
            SteamDrive { manifest: Some(b"\"name\" \"Game\"\n".to_vec()), game: A },
        ],
    }
}

#[test]
fn nothing_known_at_first() {
    let d = hyprland();
    assert_eq!(d.game, None);
    assert_eq!(d.confidence, 0);
    assert_eq!(d.confident_game(), None);
    assert!(d.steam_scan_due(Moment { ns: 0 }));
}

#[test]
fn stems_of_programs() {
    assert_eq!(stem_of("game.exe"), "game");
    assert_eq!(stem_of("game-bin"), "game");
    assert_eq!(stem_of("game"), "game");
    assert_eq!(stem_of(".exe"), "");
}

#[test]
fn plain_windows() {
    assert!(is_plain_window("firefox", ""));
    assert!(is_plain_window("firefox-bin", ""));
    assert!(is_plain_window("steamwebhelper.exe", ""));
    assert!(is_plain_window("com.google.chrome.beta", ""));
    assert!(is_plain_window("game", "a video - youtube - more"));
    assert!(!is_plain_window("firefoxy", "a game"));
    assert!(!is_plain_window("game", "youtube"));
}

#[test]
fn games_are_resolved() {
    assert_eq!(resolve_game(seen(A, A, U)), Some((A, 20)));
    assert_eq!(resolve_game(seen(A, B, U)), Some((B, -20)));
    assert_eq!(resolve_game(seen(U, B, A)), Some((B, 10)));
    assert_eq!(resolve_game(seen(A, U, B)), Some((A, 10)));
    assert_eq!(resolve_game(seen(U, U, B)), Some((B, 5)));
    assert_eq!(resolve_game(seen(U, U, U)), None);
}

#[test]
fn window_of_a_game() {
    let d = matched("Game", "game", 1, seen(A, A, U));
    assert_eq!((d.game, d.confidence, d.confident_game()), (Some(A), 100, Some(A)));
    let d = matched("Game", "game", 0, seen(U, U, B));
    assert_eq!((d.game, d.confidence, d.confident_game()), (Some(B), 65, Some(B)));
}

#[test]
fn contradiction_counts_only_in_full_screen() {
    let d = matched("Game", "game", 0, seen(A, B, U));
    assert_eq!((d.game, d.confidence, d.confident_game()), (Some(B), 40, None));
    let d = matched("Game", "game", 1, seen(A, B, U));
    assert_eq!((d.game, d.confidence, d.confident_game()), (Some(B), 60, Some(B)));
}

#[test]
fn browser_is_no_game() {
    let d = matched("Game - Mozilla Firefox", "Navigator", 1, seen(A, A, A));
    assert_eq!((d.game, d.confidence), (None, 0));
    let d = matched("Game", "FIREFOX.EXE", 1, seen(A, A, A));
    assert_eq!((d.game, d.confidence), (None, 0));
}

#[test]
fn unrecognised_window_clears() {
    let d = matched("Editor", "editor", 0, seen(U, U, U));
    assert_eq!((d.game, d.confidence), (None, 0));
    let mut d = hyprland();
    d.match_window_title_process(seen(A, A, A));
    assert_eq!((d.game, d.confidence), (None, 0));
}

#[test]
fn confidence_is_clamped() {
    let mut d = hyprland();
    d.adjust_confidence(-20);
    assert_eq!(d.confidence, 0);
    d.adjust_confidence(90);
    d.adjust_confidence(20);
    assert_eq!(d.confidence, 100);
    d.clear_detection();
    assert_eq!(d.confidence, 0);
}

#[test]
fn unknown_game_never_counts() {
    let mut d = hyprland();
    d.game = Some(U);
    d.confidence = 100;
    assert_eq!(d.confident_game(), None);
    d.game = Some(A);
    d.confidence = 49;
    assert_eq!(d.confident_game(), None);
    d.confidence = 50;
    assert_eq!(d.confident_game(), Some(A));
}

#[test]
fn failed_window_forgets_the_last_one() {
    let mut d = hyprland();
    assert!(d.use_active_window(&window("a", "b", 0)).is_ok());
    assert!(d.use_active_window(&WindowProbe::Hyprland(None)).is_err());
    assert_eq!(d.active_window_title, None);
    assert_eq!(d.active_window_process_name, None);
    assert_eq!(d.confidence, 60);
}

#[test]
fn steam_by_number() {
    let mut d = hyprland();
    let mut f = facts(Some("440"));
    f.id_game = B;
    f.home = None;
    assert_eq!(d.use_active_steam_app(&f).ok(), Some(true));
    assert_eq!((d.game, d.confidence), (Some(B), 75));
    let mut f = facts(Some("44x"));
    f.id_game = B;
    assert_eq!(d.use_active_steam_app(&f).ok(), Some(true));
    assert_eq!((d.game, d.confidence), (Some(A), 60));
}

#[test]
fn steam_without_a_game() {
    let mut d = hyprland();
    assert_eq!(d.use_active_steam_app(&facts(None)).ok(), Some(false));
    let mut f = facts(Some("1"));
    f.library = None;
    f.drives.clear();
    assert_eq!(d.use_active_steam_app(&f).ok(), Some(false));
    let mut f = facts(Some("1"));
    f.drives[0].manifest = Some(b"\"name\" \"Odd\"\n".to_vec());
    assert_eq!(d.use_active_steam_app(&f).ok(), Some(false));
    let mut f = facts(Some("1"));
    f.drives[1].manifest = Some(b"nothing".to_vec());
    assert_eq!(d.use_active_steam_app(&f).ok(), Some(false));
    assert_eq!(d.game, None);
}

#[test]
fn steam_needs_a_home() {
    let mut d = hyprland();
    let mut f = facts(Some("1"));
    f.home = None;
    match d.use_active_steam_app(&f) {
        Err(WayclipError::NotFound(m)) => assert_eq!(m, "No home dir found"),
        _ => panic!("an error was expected"),
    }
}

#[test]
fn steam_goes_before_the_window() {
    let mut d = hyprland();
    let steam = SteamProbe::Seen(facts(Some("1")));
    d.discover_game(&window("Game", "game", 0), &steam, seen(B, B, B), Moment { ns: 5 });
    assert_eq!((d.game, d.confidence), (Some(A), 60));
    assert!(d.last_steam_found);
    assert_eq!(d.last_steam_scan, Some(Moment { ns: 5 }));
}

#[test]
fn steam_scans_are_a_minute_apart() {
    let mut d = hyprland();
    let none = WindowProbe::Hyprland(None);
    d.discover_game(&none, &SteamProbe::Unreadable, seen(U, U, U), Moment { ns: 5 });
    assert!(!d.steam_scan_due(Moment { ns: 60_000_000_004 }));
    assert!(d.steam_scan_due(Moment { ns: 60_000_000_005 }));
}

#[test]
fn what_steam_told_stands_until_the_next_scan() {
    let mut d = hyprland();
    let none = WindowProbe::Hyprland(None);
    let other = window("Game", "game", 0);
    d.discover_game(&other, &SteamProbe::Seen(facts(Some("1"))), seen(U, U, U), Moment { ns: 0 });
    d.discover_game(&none, &SteamProbe::NotDue, seen(B, B, B), Moment { ns: 1_000 });
    assert_eq!(d.game, Some(A));
    d.discover_game(&other, &SteamProbe::NotDue, seen(B, B, B), Moment { ns: 2_000 });
    assert_eq!(d.game, Some(A));
    let later = Moment { ns: 60_000_000_000 };
    d.discover_game(&none, &SteamProbe::Seen(facts(None)), seen(B, B, B), later);
    assert_eq!((d.game, d.confidence), (None, 0));
}

#[test]
fn window_counts_where_steam_tells_nothing() {
    let mut d = hyprland();
    let steam = SteamProbe::Seen(facts(None));
    d.discover_game(&window("Game", "game", 1), &steam, seen(B, U, U), Moment { ns: 0 });
    assert_eq!((d.game, d.confidence), (Some(B), 90));
    assert_eq!(d.active_window_title.as_deref(), Some("Game"));
    let broken = WindowProbe::NotRun("no such file".to_string());
    d.discover_game(&broken, &SteamProbe::NotDue, seen(B, B, B), Moment { ns: 1 });
    assert_eq!((d.game, d.confidence, d.active_window_title), (None, 0, None));
}
