//! The smaller verified pieces: model names, time helpers, URL detection,
//! environment parsing, hotkey chords.

use rustickers::envblock::parse_env_block;
use rustickers::paths::AppPaths;
use rustickers::hotkey::{hotkey_chord_hit, primary_modifier_down, KeyState};
use rustickers::model::{StickerColor, StickerOrderBy};
use rustickers::text::trim_str;
use rustickers::timeutil::{format_unix_millis, now_unix_millis, secs_to_hms};
use rustickers::urlcheck::is_url;

#[test]
fn trimming_removes_unicode_whitespace() {
    // Fails if trimming handed the text back unchanged.
    assert_eq!(trim_str("  echo hello \t"), "echo hello");
    assert_eq!(trim_str("\u{a0} x \u{2003}"), "x");
    assert_eq!(trim_str("   "), "");
    assert_eq!(trim_str(""), "");
    assert_eq!(trim_str("inner  space"), "inner  space");
}

#[test]
fn environment_lines_parse_as_documented() {
    let pairs = parse_env_block("A=1\r\n\n  B  \n K = spaced out \n=empty-key\nC=a=b");
    let view: Vec<(&str, &str)> = pairs
        .iter()
        .map(|p| (p.key.as_str(), p.value.as_str()))
        .collect();
    assert_eq!(
        view,
        vec![
            ("A", "1"),
            ("B", ""),
            ("K", "spaced out"),
            ("", "empty-key"),
            ("C", "a=b"),
        ]
    );
    assert!(parse_env_block("").is_empty());
    assert!(parse_env_block("  \n\t\n").is_empty());
}

#[test]
fn url_detection_is_scheme_and_case_based() {
    assert!(is_url("http://example.com"));
    assert!(is_url("  HTTPS://example.com  "));
    assert!(is_url("HtTp://x"));
    assert!(!is_url("ftp://example.com"));
    assert!(!is_url("http:/example.com"));
    assert!(!is_url("example.com"));
    assert!(!is_url(""));
}

#[test]
fn seconds_split_into_hours_minutes_seconds() {
    assert_eq!(secs_to_hms(3661), (1, 1, 1));
    assert_eq!(secs_to_hms(0), (0, 0, 0));
    assert_eq!(secs_to_hms(-5), (0, 0, 0));
    assert_eq!(secs_to_hms(59), (0, 0, 59));
    assert_eq!(secs_to_hms(36_000), (10, 0, 0));
}

#[test]
fn clock_reads_are_nonnegative_and_format_handles_nonpositive() {
    assert!(now_unix_millis() >= 0);
    assert_eq!(format_unix_millis(0), "");
    assert_eq!(format_unix_millis(-42), "");
    // A real timestamp renders minute precision: "YYYY-MM-DD hh:mm".
    let s = format_unix_millis(1_000_000_000_000);
    assert_eq!(s.len(), 16);
}

#[test]
fn color_names_round_trip_and_fall_back_to_gray() {
    assert_eq!(StickerColor::from_name(" YELLOW "), StickerColor::Yellow);
    assert_eq!(StickerColor::from_name("green"), StickerColor::Green);
    assert_eq!(StickerColor::from_name("Blue"), StickerColor::Blue);
    assert_eq!(StickerColor::from_name("pink"), StickerColor::Pink);
    assert_eq!(StickerColor::from_name("gray"), StickerColor::Gray);
    assert_eq!(StickerColor::from_name("chartreuse"), StickerColor::Gray);
    for c in [
        StickerColor::Yellow,
        StickerColor::Green,
        StickerColor::Blue,
        StickerColor::Pink,
        StickerColor::Gray,
    ] {
        assert_eq!(StickerColor::from_name(c.as_str()), c);
    }
}

#[test]
fn order_by_renders_its_sql_fragment() {
    assert_eq!(StickerOrderBy::CreatedAsc.to_sql(), "created_at ASC");
    assert_eq!(StickerOrderBy::CreatedDesc.to_sql(), "created_at DESC");
    assert_eq!(StickerOrderBy::UpdatedAsc.to_sql(), "updated_at ASC");
    assert_eq!(StickerOrderBy::UpdatedDesc.to_sql(), "updated_at DESC");
}

#[test]
fn the_log_directory_sits_beside_the_database_file() {
    let unixish = AppPaths { db_path: "/home/me/.local/share/rustickers/stickers.db".to_string() };
    assert_eq!(unixish.log_dir(), "/home/me/.local/share/rustickers/logs");
    let windowsish = AppPaths { db_path: "C:\\data\\rustickers\\stickers.db".to_string() };
    assert_eq!(windowsish.log_dir(), "C:\\data\\rustickers\\logs");
    let bare = AppPaths { db_path: "stickers.db".to_string() };
    assert_eq!(bare.log_dir(), "logs");
}

#[test]
fn hotkey_chord_requires_alt_and_the_primary_modifier() {
    let mut state = KeyState::default();
    assert!(!primary_modifier_down(state, false));
    state.ctrl = true;
    assert!(primary_modifier_down(state, false));
    assert!(primary_modifier_down(state, true));
    state.ctrl = false;
    state.meta = true;
    assert!(!primary_modifier_down(state, false));
    assert!(primary_modifier_down(state, true));
    // The chord needs Alt too, and a fresh press of the letter.
    state.alt = true;
    assert!(hotkey_chord_hit(state, true));
    state.r_down = true;
    assert!(!hotkey_chord_hit(state, true));
}
