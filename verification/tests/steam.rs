use wayclip_daemon::discovery::Discovery;
use wayclip_daemon::steam::{app_id_in, environ_app_id, is_process_dir, manifest_path, steam_dirs};

const LIBRARY: &[u8] = b"\"libraryfolders\"\n{\n\t\"0\"\n\t{\n\t\t\"path\"\t\t\"/home/me/.steam\"\r\n\
\t\t\"label\"\t\t\"\"\n\t}\n\t\"1\"\n\t{\n\t\t\"path\"\t\t\"/mnt/games\"\n\t\t\"path\"\n\t}\n}";

#[test]
fn drives_of_the_library() {
    assert_eq!(Discovery::get_steam_drives(LIBRARY), vec!["/home/me/.steam", "/mnt/games"]);
    assert_eq!(Discovery::get_steam_drives(b""), Vec::<String>::new());
    assert_eq!(Discovery::get_steam_drives(b"\"path\" \"/x\""), vec!["/x"]);
}

#[test]
fn drives_up_to_the_first_broken_line() {
    let mut bytes = b"\"path\" \"/a\"\n".to_vec();
    bytes.extend_from_slice(&[0xff, b'\n']);
    bytes.extend_from_slice(b"\"path\" \"/b\"\n");
    assert_eq!(Discovery::get_steam_drives(&bytes), vec!["/a"]);
}

#[test]
fn name_of_a_game() {
    let manifest = b"\"AppState\"\n{\n\t\"appid\"\t\"440\"\n\t\"name\"\n\t\"name\"\t\t\"Team \xc3\xa9 2\"\n\t\"name\" \"B\"\n}\n";
    assert_eq!(Discovery::get_game_name(manifest).as_deref(), Some("Team é 2"));
    assert_eq!(Discovery::get_game_name(b"\"appid\" \"440\"\n"), None);
}

#[test]
fn game_of_a_process() {
    assert_eq!(
        environ_app_id(b"HOME=/home/me\0SteamAppId=440\0PATH=/bin\0").as_deref(),
        Some("440")
    );
    assert_eq!(environ_app_id(b"SteamAppId=1\0SteamAppId=2\0").as_deref(), Some("2"));
    assert_eq!(environ_app_id(b"SteamAppId=1\0SteamAppId=2").as_deref(), Some("1"));
    assert_eq!(environ_app_id(b"SteamAppId=7=8\0").as_deref(), Some("7"));
    assert_eq!(environ_app_id(b"XSteamAppId=7\0"), None);
    assert_eq!(environ_app_id(b""), None);
    assert_eq!(environ_app_id(b"\xff=1\0SteamAppId=\xff\0").as_deref(), Some("\u{fffd}"));
    assert_eq!(app_id_in("SteamAppId=").as_deref(), Some(""));
}

#[test]
fn directories_of_processes() {
    assert!(is_process_dir("4711"));
    assert!(is_process_dir(""));
    assert!(!is_process_dir("self"));
    assert!(!is_process_dir("12a"));
}

#[test]
fn files_of_steam() {
    assert_eq!(
        steam_dirs("/home/me"),
        vec![
            "/home/me/.steam",
            "/home/me/.local/share/Steam",
            "/home/me/.var/app/com.valvesoftware.Steam",
            "/home/me/snap/steam",
        ]
    );
    assert_eq!(manifest_path("/mnt/g", "440"), "/mnt/g/steamapps/appmanifest_440.acf");
}

#[test]
fn quoted_values_come_back() {
    for value in ["/mnt/games", "Half-Life 2", "", "é ü"] {
        let line = format!("  \"path\"\t\t\"{value}\"  ");
        assert_eq!(Discovery::get_steam_drives(line.as_bytes()), vec![value]);
    }
}
