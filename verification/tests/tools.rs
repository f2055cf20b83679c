//! Tests of the tool locator and the text helpers.

use photo_metadata::get_exiftool_path;
use photo_metadata::i32_to_string;
use photo_metadata::join_keywords;
use photo_metadata::split_keywords;
use photo_metadata::str_eq;
use photo_metadata::str_is_blank;
use photo_metadata::trim;
use photo_metadata::u64_to_string;

#[test]
fn bundled_tool_next_to_the_executable_wins() {
    let path = get_exiftool_path(Some("/opt/app"), false, true, true);
    assert_eq!(path, "/opt/app/exiftool");
}

#[test]
fn resources_subdirectory_is_the_second_choice() {
    let path = get_exiftool_path(Some("/opt/app"), false, false, true);
    assert_eq!(path, "/opt/app/resources/exiftool");
}

#[test]
fn search_path_is_the_fallback() {
    assert_eq!(get_exiftool_path(Some("/opt/app"), false, false, false), "exiftool");
    assert_eq!(get_exiftool_path(None, false, true, true), "exiftool");
}

#[test]
fn the_windows_name_carries_the_exe_suffix() {
    assert_eq!(get_exiftool_path(Some("C:/app"), true, true, false), "C:/app/exiftool.exe");
    assert_eq!(get_exiftool_path(None, true, false, false), "exiftool.exe");
}

#[test]
fn splitting_trims_and_drops_empties() {
    let parts = split_keywords(" a, b ,, c  ,");
    assert_eq!(parts, vec!["a".to_string(), "b".to_string(), "c".to_string()]);
}

#[test]
fn splitting_a_single_keyword() {
    assert_eq!(split_keywords("x"), vec!["x".to_string()]);
}

#[test]
fn splitting_blank_or_empty_strings_yields_nothing() {
    assert_eq!(split_keywords(""), Vec::<String>::new());
    assert_eq!(split_keywords("   "), Vec::<String>::new());
    assert_eq!(split_keywords(" , ,"), Vec::<String>::new());
}

#[test]
fn cleaning_is_idempotent_on_a_rejoined_list() {
    let parts = split_keywords("  alpha ,beta,, gamma delta ");
    assert!(!parts.is_empty());
    let rejoined = join_keywords(&parts);
    assert_eq!(rejoined, "alpha, beta, gamma delta");
    assert_eq!(split_keywords(&rejoined), parts);
}

#[test]
fn joining_none_or_one() {
    assert_eq!(join_keywords(&Vec::new()), "");
    assert_eq!(join_keywords(&vec!["solo".to_string()]), "solo");
}

#[test]
fn decimal_rendering_of_naturals() {
    assert_eq!(u64_to_string(0), "0");
    assert_eq!(u64_to_string(7), "7");
    assert_eq!(u64_to_string(10), "10");
    assert_eq!(u64_to_string(12345), "12345");
    assert_eq!(u64_to_string(u64::MAX), "18446744073709551615");
}

#[test]
fn decimal_rendering_of_signed_integers() {
    assert_eq!(i32_to_string(0), "0");
    assert_eq!(i32_to_string(42), "42");
    assert_eq!(i32_to_string(-1), "-1");
    assert_eq!(i32_to_string(i32::MIN), "-2147483648");
    assert_eq!(i32_to_string(i32::MAX), "2147483647");
}

#[test]
fn trimming_removes_surrounding_whitespace_only() {
    assert_eq!(trim("  a b  "), "a b");
    assert_eq!(trim("a"), "a");
    assert_eq!(trim("   "), "");
    assert_eq!(trim(""), "");
    assert_eq!(trim("\u{a0}x\u{3000}"), "x");
}

#[test]
fn blankness_covers_unicode_whitespace() {
    assert!(str_is_blank(""));
    assert!(str_is_blank(" \t\r\n\u{a0}\u{2003}"));
    assert!(!str_is_blank(" x "));
}

#[test]
fn string_comparison_is_exact() {
    assert!(str_eq("abc", "abc"));
    assert!(!str_eq("abc", "abd"));
    assert!(!str_eq("abc", "abcd"));
    assert!(str_eq("", ""));
}
