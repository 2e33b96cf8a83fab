use ototune::format::{clock_string, decimal_string, pad2_string, signed_decimal_string};
use ototune::text::{
    name_or_path,
    chars_of, join_str, has_in_order, eq_ignore_ascii_case, get_filename_fallback, is_blank,
    is_whitespace, starts_with_chars, string_from_chars, text_eq, trim_end_slashes,
};

fn cs(s: &str) -> Vec<char> {
    s.chars().collect()
}

#[test]
fn chars_round_trip() {
    let v = chars_of("ほげ ab");
    assert_eq!(v, vec!['ほ', 'げ', ' ', 'a', 'b']);
    assert_eq!(string_from_chars(&v), "ほげ ab");
    assert_eq!(join_str("ab", "cd"), "abcd");
}

#[test]
fn in_order_search() {
    assert!(has_in_order(&cs("immersionpod"), &cs("sion")));
    assert!(has_in_order(&cs("immersionpod"), &cs("mrpd")));
    assert!(has_in_order(&cs("abc"), &cs("")));
    assert!(!has_in_order(&cs("abc"), &cs("abcd")));
    assert!(has_in_order(&cs("abc"), &cs("ac")));
    assert!(!has_in_order(&cs("abc"), &cs("ca")));
    assert!(!has_in_order(&cs("hello"), &cs("hll l")));
    assert!(has_in_order(&cs("abc"), &cs("abc")));
    assert!(!has_in_order(&cs(""), &cs("a")));
}

#[test]
fn prefix_test() {
    assert!(starts_with_chars(&cs("music/a"), &cs("music")));
    assert!(!starts_with_chars(&cs("mus"), &cs("music")));
    assert!(starts_with_chars(&cs("x"), &cs("")));
}

#[test]
fn whitespace_and_blank() {
    assert!(is_whitespace(' '));
    assert!(is_whitespace('\t'));
    assert!(is_whitespace('\u{3000}'));
    assert!(!is_whitespace('a'));
    assert!(is_blank(""));
    assert!(is_blank(" \t\n"));
    assert!(!is_blank("  x "));
    for c in ['\u{85}', '\u{a0}', '\u{1680}', '\u{2003}', '\u{2028}', '\u{205f}', 'x', '\u{200b}'] {
        assert_eq!(is_whitespace(c), c.is_whitespace());
    }
}

#[test]
fn ascii_case_insensitive_equality() {
    assert!(eq_ignore_ascii_case("Title", "TITLE"));
    assert!(eq_ignore_ascii_case("title", "Title"));
    assert!(!eq_ignore_ascii_case("Titles", "Title"));
    assert!(!eq_ignore_ascii_case("Ä", "ä"));
    assert!(text_eq("directory", "directory"));
    assert!(!text_eq("directory", "Directory"));
}

#[test]
fn trailing_slashes_trimmed() {
    assert_eq!(trim_end_slashes("music///"), "music");
    assert_eq!(trim_end_slashes("music/a"), "music/a");
    assert_eq!(trim_end_slashes("///"), "");
}

#[test]
fn file_name_fallback() {
    assert_eq!(get_filename_fallback("immersionpod/ep01.mp3"), "ep01.mp3");
    assert_eq!(get_filename_fallback("song.flac"), "song.flac");
    assert_eq!(get_filename_fallback("dir/sub/"), "sub");
    assert_eq!(get_filename_fallback(""), "");
    assert_eq!(get_filename_fallback("/"), "/");
    assert_eq!(get_filename_fallback("a/.."), "a/..");
}

#[test]
fn decimal_formatting() {
    assert_eq!(decimal_string(0), "0");
    assert_eq!(decimal_string(1234), "1234");
    assert_eq!(decimal_string(u64::MAX), u64::MAX.to_string());
    assert_eq!(signed_decimal_string(-1), "-1");
    assert_eq!(signed_decimal_string(75), "75");
    assert_eq!(signed_decimal_string(i64::MIN), i64::MIN.to_string());
    assert_eq!(pad2_string(5), "05");
    assert_eq!(pad2_string(42), "42");
    assert_eq!(pad2_string(123), "123");
}

#[test]
fn clock_formatting() {
    // 8 minutes 42 seconds, as in the README's example position.
    assert_eq!(clock_string(522), "08:42");
    assert_eq!(clock_string(0), "00:00");
    assert_eq!(clock_string(6000), "100:00");
    assert_eq!(clock_string(59), "00:59");
}

#[test]
fn name_or_path_choice() {
    assert_eq!(name_or_path(Some("b.mp3".to_string()), "a/b.mp3"), "b.mp3");
    assert_eq!(name_or_path(None, "/"), "/");
}
