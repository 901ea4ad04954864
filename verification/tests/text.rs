use mouse_coords::text::{
    chars_of, contains_chars, decimal_i32, decimal_u128, eq_ignore_ascii_case_chars,
    parse_i32_chars, path_join_bytes, trim_chars,
};
use mouse_coords::Error;

fn cs(s: &str) -> Vec<char> {
    chars_of(s)
}

fn st(v: Vec<char>) -> String {
    v.into_iter().collect()
}

#[test]
fn trims_unicode_white_space() {
    assert_eq!(st(trim_chars(&cs("\u{2003} a b\u{85}\n"))), "a b");
    assert_eq!(st(trim_chars(&cs("\u{200b}x"))), "\u{200b}x");
    assert_eq!(st(trim_chars(&cs(" \t "))), "");
}

#[test]
fn parses_integers_like_std() {
    for s in ["0", "+0", "-0", "42", "-2147483648", "2147483647", "0002", "+", "-", "", " 1", "1 ", "2147483648", "-2147483649", "1_0", "٣"] {
        assert_eq!(parse_i32_chars(&cs(s)), s.parse::<i32>().ok(), "input {:?}", s);
    }
}

#[test]
fn renders_decimals() {
    assert_eq!(st(decimal_i32(0)), "0");
    assert_eq!(st(decimal_i32(-2147483648)), "-2147483648");
    assert_eq!(st(decimal_u128(u128::MAX)), u128::MAX.to_string());
}

#[test]
fn case_and_search() {
    assert!(eq_ignore_ascii_case_chars(&cs("WaYland"), &cs("wayland")));
    assert!(!eq_ignore_ascii_case_chars(&cs("wayland "), &cs("wayland")));
    assert!(contains_chars(&cs("ubuntu:gnome"), &cs("gnome")));
    assert!(contains_chars(&cs("abc"), &cs("")));
    assert!(!contains_chars(&cs("gno"), &cs("gnome")));
}

#[test]
fn joins_paths_like_std() {
    for (a, b) in [("/tmp", "x"), ("/tmp/", "x"), ("", "x"), ("/tmp", "/abs"), ("rel", "")] {
        let ours = String::from_utf8(path_join_bytes(&a.as_bytes().to_vec(), &b.as_bytes().to_vec())).unwrap();
        let theirs = std::path::Path::new(a).join(b);
        assert_eq!(ours, theirs.to_str().unwrap(), "{:?} {:?}", a, b);
    }
}

#[test]
fn error_messages() {
    assert_eq!(Error::Connection("x".to_string()).message(), "display connection failed: x");
    assert_eq!(Error::Query("y".to_string()).message(), "position query failed: y");
    assert_eq!(Error::Unsupported("z".to_string()).message(), "unsupported: z");
}
