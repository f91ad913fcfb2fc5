use wayclip_daemon::text::{
    cat, contains, contains_any, decimal_text, ends_with, is_empty, is_one_of, keep_digits,
    nth_piece, parse_up_to, replace, same_text, sanitise, starts_with, trim, trim_set, TrimSet,
};

#[test]
fn parts_of_texts() {
    assert!(starts_with("video/x-h264", "video/"));
    assert!(!starts_with("vid", "video"));
    assert!(ends_with("game.exe", ".exe"));
    assert!(!ends_with("exe", ".exe"));
    assert!(contains("a not-negotiated error", "negotiated"));
    assert!(!contains("", "x"));
    assert!(contains("", ""));
    assert!(same_text("é", "é"));
    assert!(!same_text("é", "e"));
}

#[test]
fn lists_of_texts() {
    assert!(is_one_of("vlc", &["mpv", "vlc"]));
    assert!(!is_one_of("vlc2", &["mpv", "vlc"]));
    assert!(contains_any("org.vlc.player", &["mpv", "vlc"]));
    assert!(!contains_any("kitty", &[]));
}

#[test]
fn trimming() {
    assert_eq!(trim(" \t\u{a0}héllo\u{3000}\n"), "héllo");
    assert_eq!(trim(" \n "), "");
    assert_eq!(trim_set("((a(b))", TrimSet::Only('(')), "a(b))");
}

#[test]
fn pieces_between_separators() {
    assert_eq!(nth_piece("a=b=c", '=', 1), Some("b".to_string()));
    assert_eq!(nth_piece("a=", '=', 1), Some(String::new()));
    assert_eq!(nth_piece("a", '=', 1), None);
    assert_eq!(nth_piece("", '=', 0), Some(String::new()));
}

#[test]
fn replacing() {
    assert_eq!(replace("CTRL+ALT+C", "+", " + "), "CTRL + ALT + C");
    assert_eq!(replace("aaa", "aa", "b"), "ba");
    assert_eq!(replace("none", "{game}", "x"), "none");
}

#[test]
fn numbers() {
    assert_eq!(decimal_text(0), "0");
    assert_eq!(decimal_text(u64::MAX), "18446744073709551615");
    assert_eq!(parse_up_to("18446744073709551615", u64::MAX), Some(u64::MAX));
    assert_eq!(parse_up_to("18446744073709551616", u64::MAX), None);
    assert_eq!(parse_up_to("+12", u64::MAX), Some(12));
    assert_eq!(parse_up_to("+", u64::MAX), None);
    assert_eq!(parse_up_to("", u64::MAX), None);
    assert_eq!(parse_up_to("4294967296", u32::MAX as u64), None);
    assert_eq!(keep_digits("(uint32 4711,)"), "324711");
}

#[test]
fn joining_and_emptiness() {
    assert_eq!(cat("a", "b"), "ab");
    assert!(is_empty(""));
    assert!(!is_empty(" "));
}

#[test]
fn element_names_are_sanitised() {
    assert_eq!(sanitise("alsa_output.pci-0000:00"), "alsa_output_pci_0000_00");
    assert_eq!(sanitise("Ä9 x"), "Ä9_x");
}
