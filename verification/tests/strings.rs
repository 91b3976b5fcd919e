use nvidia_init::strings::contains_substr;
use nvidia_init::strings::str_eq;
use nvidia_init::strings::trim_str;

#[test]
fn str_eq_compares_characters() {
    assert!(str_eq("", ""));
    assert!(str_eq("0x10de", "0x10de"));
    assert!(!str_eq("0x10de", "0x10df"));
    assert!(!str_eq("0x10de", "0x10de "));
    assert!(!str_eq("abc", "ab"));
}

#[test]
fn trim_strips_both_ends_only() {
    assert_eq!(trim_str("0x10de\n"), "0x10de");
    assert_eq!(trim_str("  \t0x2330 \r\n"), "0x2330");
    assert_eq!(trim_str("no padding"), "no padding");
    assert_eq!(trim_str("inner space kept \n"), "inner space kept");
    assert_eq!(trim_str(""), "");
    assert_eq!(trim_str(" \t\r\n"), "");
}

#[test]
fn substring_search_finds_the_marker_anywhere() {
    assert!(contains_substr("CC mode is on", "CC mode is on"));
    assert!(contains_substr("prefix CC mode is on suffix", "CC mode is on"));
    assert!(!contains_substr("CC mode is off", "CC mode is on"));
    assert!(!contains_substr("CC mode is o", "CC mode is on"));
    assert!(contains_substr("anything", ""));
    assert!(!contains_substr("", "x"));
}
