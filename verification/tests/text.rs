use netplay::text::{contains, format_hex, format_i64, format_u64, same_text};
use netplay::url::websocket_url;

#[test]
fn numerals_are_decimal() {
    assert_eq!(format_u64(0), "0");
    assert_eq!(format_u64(9), "9");
    assert_eq!(format_u64(10), "10");
    assert_eq!(format_u64(300), "300");
    assert_eq!(format_u64(u64::MAX), u64::MAX.to_string());
}

#[test]
fn signed_numerals_carry_their_sign() {
    assert_eq!(format_i64(-5), "-5");
    assert_eq!(format_i64(1700000000000), "1700000000000");
    assert_eq!(format_i64(i64::MIN), i64::MIN.to_string());
    assert_eq!(format_i64(i64::MAX), i64::MAX.to_string());
}

#[test]
fn bytes_are_written_in_lower_hex() {
    assert_eq!(format_hex(&[]), "");
    assert_eq!(format_hex(&[0x00, 0x0f, 0xbe, 0xef]), "000fbeef");
}

#[test]
fn texts_are_compared_and_searched() {
    assert!(same_text("true", "true"));
    assert!(!same_text("true", "True"));
    assert!(contains("a://b", "://"));
    assert!(contains("://", "://"));
    assert!(contains("::///", "://"));
    assert!(!contains("a:/b", "://"));
    assert!(!contains("", "://"));
    assert!(contains("", ""));
}

#[test]
fn bare_address_gets_the_ws_scheme() {
    assert_eq!(websocket_url("example.org:45000"), "ws://example.org:45000");
    assert_eq!(websocket_url(""), "ws://");
}

#[test]
fn address_with_a_scheme_is_kept() {
    assert_eq!(websocket_url("wss://example.org"), "wss://example.org");
    assert_eq!(websocket_url("ws://1.2.3.4:5"), "ws://1.2.3.4:5");
}

#[test]
fn url_of_a_url_is_the_url() {
    let url = websocket_url("example.org");
    assert_eq!(websocket_url(&url), url);
}
