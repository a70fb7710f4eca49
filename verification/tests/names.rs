use podfetch::filename::{destination_name, ends_in_suffix, forbidden, sanitize_filename};
use podfetch::text::{digit_of, push_decimal};

const FORBIDDEN: [char; 10] = ['/', '\\', '?', '%', '*', ':', '|', '"', '<', '>'];

#[test]
fn title_with_separators_and_marks() {
    assert_eq!(sanitize_filename("A/B: Test?"), "A_B_ Test_.mp3");
}

#[test]
fn every_forbidden_character_is_replaced() {
    assert_eq!(sanitize_filename("/\\?%*:|\"<>"), "__________.mp3");
    for c in FORBIDDEN {
        assert!(forbidden(c));
    }
    assert!(!forbidden('_'));
    assert!(!forbidden('.'));
    assert!(!forbidden('a'));
    assert!(!forbidden(' '));
}

#[test]
fn suffix_is_not_doubled() {
    assert_eq!(sanitize_filename("show.mp3"), "show.mp3");
    assert_eq!(sanitize_filename(".mp3"), ".mp3");
}

#[test]
fn suffix_is_added_where_missing() {
    assert_eq!(sanitize_filename(""), ".mp3");
    assert_eq!(sanitize_filename("mp3"), "mp3.mp3");
    assert_eq!(sanitize_filename("show.MP3"), "show.MP3.mp3");
    assert_eq!(sanitize_filename("show.mp3 "), "show.mp3 .mp3");
}

#[test]
fn characters_beyond_ascii_are_kept() {
    assert_eq!(sanitize_filename("Caf\u{e9}: \u{1f3a7}"), "Caf\u{e9}_ \u{1f3a7}.mp3");
    assert_eq!(sanitize_filename("\u{e9}.mp3"), "\u{e9}.mp3");
}

#[test]
fn sanitizing_twice_changes_nothing() {
    let titles = ["A/B: Test?", "", "x.mp3", "a.mp3?", "100% <live>", "plain", "..mp3", "\u{e9}|"];
    for t in titles {
        let once = sanitize_filename(t);
        let twice = sanitize_filename(&once);
        assert_eq!(once, twice);
        assert!(once.ends_with(".mp3"));
        assert!(!once.chars().any(|c| FORBIDDEN.contains(&c)));
    }
}

#[test]
fn suffix_test_reads_the_last_four_characters() {
    assert!(ends_in_suffix("a.mp3"));
    assert!(ends_in_suffix(".mp3"));
    assert!(!ends_in_suffix("mp3"));
    assert!(!ends_in_suffix(""));
    assert!(!ends_in_suffix("a.mp4"));
    assert!(!ends_in_suffix("a.mp3x"));
    assert!(ends_in_suffix("\u{1f3a7}.mp3"));
}

#[test]
fn destination_of_a_titled_episode() {
    assert_eq!(destination_name(Some("A/B: Test?"), 7), "A_B_ Test_.mp3");
    assert_eq!(destination_name(Some(""), 7), ".mp3");
}

#[test]
fn destination_of_an_untitled_episode() {
    assert_eq!(destination_name(None, 0), "episode_0.mp3");
    assert_eq!(destination_name(None, 3), "episode_3.mp3");
    assert_eq!(destination_name(None, 10), "episode_10.mp3");
    assert_eq!(destination_name(None, 1234567890), "episode_1234567890.mp3");
}

#[test]
fn decimal_writing() {
    let cases: [(u64, &str); 7] = [
        (0, "0"),
        (7, "7"),
        (10, "10"),
        (99, "99"),
        (100, "100"),
        (12345, "12345"),
        (u64::MAX, "18446744073709551615"),
    ];
    for (n, text) in cases {
        let mut out = String::from("n=");
        push_decimal(&mut out, n);
        assert_eq!(out, format!("n={}", text));
    }
}

#[test]
fn digits() {
    let all: Vec<char> = (0u8..10).map(digit_of).collect();
    assert_eq!(all, vec!['0', '1', '2', '3', '4', '5', '6', '7', '8', '9']);
}
