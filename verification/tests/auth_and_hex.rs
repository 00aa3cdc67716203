use debug_bridge::auth::{check_request, generate_auth_token, token_matches};
use debug_bridge::hex::{dec_str, hex32};
use debug_bridge::webview::uuid_v4;
use debug_bridge::BridgeError;

#[test]
fn auth_token_format() {
    let token = generate_auth_token();
    assert_eq!(token.len(), 32, "token should be 32 hex chars");
    assert!(
        token.chars().all(|c| c.is_ascii_hexdigit()),
        "token should only contain hex chars"
    );
}

#[test]
fn auth_tokens_are_unique() {
    let t1 = generate_auth_token();
    let t2 = generate_auth_token();
    assert_ne!(t1, t2, "consecutive tokens should differ");
}

#[test]
fn health_endpoint_needs_no_token() {
    let r = check_request("/health", "s3cret", None);
    assert!(r.is_ok());
}

#[test]
fn missing_token_is_unauthorized() {
    let r = check_request("/eval", "s3cret", None);
    assert!(matches!(r, Err(BridgeError::Unauthorized)));
}

#[test]
fn wrong_token_is_unauthorized() {
    let r = check_request("/eval", "s3cret", Some("wrong"));
    assert!(matches!(r, Err(BridgeError::Unauthorized)));
    assert_eq!(r.unwrap_err().status_code(), 401);
}

#[test]
fn right_token_passes() {
    let r = check_request("/eval", "s3cret", Some("s3cret"));
    assert!(r.is_ok());
}

#[test]
fn token_comparison_is_exact() {
    assert!(token_matches("abcd", "abcd"));
    assert!(!token_matches("abcd", "abce"));
    assert!(!token_matches("abcd", "abc"));
    assert!(!token_matches("", "a"));
    assert!(token_matches("", ""));
}

#[test]
fn hex32_renders_fixed_width() {
    assert_eq!(hex32(0), "00000000000000000000000000000000");
    assert_eq!(hex32(255), "000000000000000000000000000000ff");
    assert_eq!(hex32(0xdeadbeef), "000000000000000000000000deadbeef");
    assert_eq!(hex32(u128::MAX), "ffffffffffffffffffffffffffffffff");
}

#[test]
fn dec_renders_plain_decimal() {
    assert_eq!(dec_str(0), "0");
    assert_eq!(dec_str(7), "7");
    assert_eq!(dec_str(12345), "12345");
    assert_eq!(dec_str(u64::MAX), "18446744073709551615");
}

#[test]
fn call_ids_are_32_hex_chars() {
    let id = uuid_v4();
    assert_eq!(id.len(), 32);
    assert!(id.chars().all(|c| c.is_ascii_hexdigit()));
}
