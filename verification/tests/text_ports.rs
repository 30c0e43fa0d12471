use nativephp_tauri::ports::{api_base_url, listen_address, port_or, request_port_or};
use nativephp_tauri::text::{contains, decimal_string, replace_all, same_text, starts_with};

#[test]
fn decimal_rendering() {
    assert_eq!(decimal_string(0), "0");
    assert_eq!(decimal_string(7), "7");
    assert_eq!(decimal_string(10), "10");
    assert_eq!(decimal_string(8100), "8100");
    assert_eq!(decimal_string(65535), "65535");
}

#[test]
fn replacement_is_left_to_right_and_non_overlapping() {
    assert_eq!(replace_all("aaa", "aa", "b"), "ba");
    assert_eq!(replace_all("x127.0.0.1y127.0.0.1", "127.0.0.1", "localhost"), "xlocalhostylocalhost");
    assert_eq!(replace_all("nothing here", "zz", "q"), "nothing here");
    assert_eq!(replace_all("", "a", "b"), "");
    assert_eq!(replace_all("héllo", "é", "e"), "hello");
}

#[test]
fn substring_tests() {
    assert!(contains("http://127.0.0.1:80", "127.0.0.1"));
    assert!(!contains("http://localhost", "127.0.0.1"));
    assert!(contains("abc", ""));
    assert!(!contains("ab", "abc"));
    assert!(starts_with("https://x", "http"));
    assert!(!starts_with("htt", "http"));
    assert!(same_text("role", "role"));
    assert!(!same_text("role", "roles"));
}

#[test]
fn addresses() {
    assert_eq!(listen_address(4000), "127.0.0.1:4000");
    assert_eq!(api_base_url(4000), "http://127.0.0.1:4000/_native/api/");
    assert_eq!(port_or(Some(1234), 4000), 1234);
    assert_eq!(port_or(None, 4000), 4000);
}

#[test]
fn requested_port_is_usable() {
    let p = request_port_or(4000);
    assert!(p > 0);
}
