use token_auth::middleware::jwt_auth::bearer_token;
use token_auth::utils::text::{same_text, strip_prefix};

#[test]
fn strip_prefix_returns_what_follows() {
    assert_eq!(strip_prefix("Bearer abc", "Bearer "), Some("abc"));
    assert_eq!(strip_prefix("abc", ""), Some("abc"));
    assert_eq!(strip_prefix("abc", "abc"), Some(""));
    assert_eq!(strip_prefix("", ""), Some(""));
}

#[test]
fn strip_prefix_refuses_text_that_starts_otherwise() {
    assert_eq!(strip_prefix("bearer abc", "Bearer "), None);
    assert_eq!(strip_prefix("Bear", "Bearer "), None);
    assert_eq!(strip_prefix("", "Bearer "), None);
    assert_eq!(strip_prefix(" Bearer abc", "Bearer "), None);
}

#[test]
fn strip_prefix_counts_characters_not_bytes() {
    assert_eq!(strip_prefix("é-token", "é-"), Some("token"));
    assert_eq!(strip_prefix("Bearer 令牌", "Bearer "), Some("令牌"));
    assert_eq!(strip_prefix("e-token", "é-"), None);
}

#[test]
fn same_text_compares_character_for_character() {
    assert!(same_text("refresh", "refresh"));
    assert!(same_text("", ""));
    assert!(!same_text("refresh", "Refresh"));
    assert!(!same_text("refresh", "refresh "));
    assert!(!same_text("refresh", "access"));
}

#[test]
fn bearer_token_reads_the_authorization_header() {
    assert_eq!(bearer_token(Some("Bearer abc.def.ghi")), Some("abc.def.ghi"));
    assert_eq!(bearer_token(Some("Bearer ")), Some(""));
    assert_eq!(bearer_token(Some("Bearer  two-spaces")), Some(" two-spaces"));
    assert_eq!(bearer_token(None), None);
    assert_eq!(bearer_token(Some("")), None);
    assert_eq!(bearer_token(Some("Bearer")), None);
    assert_eq!(bearer_token(Some("Basic dXNlcjpwdw==")), None);
    assert_eq!(bearer_token(Some("bearer abc")), None);
    assert_eq!(bearer_token(Some("BEARER abc")), None);
}
