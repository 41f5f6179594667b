use cargo_piston::strutil::dashes_to_underscores;
use cargo_piston::strutil::dec_string;
use cargo_piston::strutil::ends_with;
use cargo_piston::strutil::path_join;
use cargo_piston::strutil::split_lines;
use cargo_piston::strutil::split_whitespace;
use cargo_piston::strutil::starts_with;
use cargo_piston::strutil::str_eq;
use cargo_piston::strutil::to_env_key_part;
use cargo_piston::strutil::trim;
use cargo_piston::strutil::trim_end_matches_all;

#[test]
fn decimal_rendering() {
    assert_eq!(dec_string(0), "0");
    assert_eq!(dec_string(7), "7");
    assert_eq!(dec_string(10), "10");
    assert_eq!(dec_string(1234), "1234");
    assert_eq!(dec_string(18446744073709551615), "18446744073709551615");
}

#[test]
fn string_equality() {
    assert!(str_eq("abc", "abc"));
    assert!(!str_eq("abc", "abd"));
    assert!(!str_eq("abc", "abcd"));
    assert!(str_eq("", ""));
}

#[test]
fn trimming() {
    assert_eq!(trim("  hello \t"), "hello");
    assert_eq!(trim("hello"), "hello");
    assert_eq!(trim("   "), "");
    assert_eq!(trim(""), "");
}

#[test]
fn line_splitting() {
    assert_eq!(split_lines("a\nb\nc"), vec!["a", "b", "c"]);
    assert_eq!(split_lines("a\r\nb\r\n"), vec!["a", "b"]);
    assert_eq!(split_lines(""), Vec::<String>::new());
    assert_eq!(split_lines("one"), vec!["one"]);
    assert_eq!(split_lines("a\n\nb"), vec!["a", "", "b"]);
}

#[test]
fn whitespace_splitting() {
    assert_eq!(split_whitespace("a b\tc"), vec!["a", "b", "c"]);
    assert_eq!(split_whitespace("  lead  and   trail  "), vec!["lead", "and", "trail"]);
    assert_eq!(split_whitespace(""), Vec::<String>::new());
    assert_eq!(split_whitespace("   "), Vec::<String>::new());
}

#[test]
fn prefix_and_suffix() {
    assert!(starts_with("available (paired)", "available"));
    assert!(!starts_with("unavailable", "available"));
    assert!(ends_with("host.coredevice.local", ".coredevice.local"));
    assert!(!ends_with("host.local", ".coredevice.local"));
}

#[test]
fn suffix_stripping_removes_all_occurrences() {
    assert_eq!(trim_end_matches_all("a.coredevice.local", ".coredevice.local"), "a");
    assert_eq!(trim_end_matches_all("ababab", "ab"), "");
    assert_eq!(trim_end_matches_all("plain", ".local"), "plain");
    assert_eq!(trim_end_matches_all("x", ""), "x");
}

#[test]
fn env_key_transformation() {
    assert_eq!(to_env_key_part("aarch64-linux-android"), "AARCH64_LINUX_ANDROID");
    assert_eq!(to_env_key_part("x86_64-pc-windows-msvc"), "X86_64_PC_WINDOWS_MSVC");
    assert_eq!(to_env_key_part(""), "");
}

#[test]
fn dash_replacement() {
    assert_eq!(dashes_to_underscores("my-game"), "my_game");
    assert_eq!(dashes_to_underscores("plain"), "plain");
}

#[test]
fn joining_paths() {
    assert_eq!(path_join("/proj", "target"), "/proj/target");
}
