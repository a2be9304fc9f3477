use token_auth::utils::hash::{hash_password, hash_password_with_salt, verify_password, HashError};

const SALT: &str = "c29tZXNhbHRzb21lc2FsdA";

#[test]
fn hash_then_verify_accepts_the_same_password() {
    let hash = hash_password("pw1").expect("hashing succeeds");
    assert!(verify_password(&hash, "pw1"));
}

#[test]
fn hash_then_verify_rejects_another_password() {
    let hash = hash_password("pw1").expect("hashing succeeds");
    assert!(!verify_password(&hash, "pw2"));
    assert!(!verify_password(&hash, ""));
    assert!(!verify_password(&hash, "pw1 "));
}

#[test]
fn hash_is_a_self_describing_argon2id_string() {
    let hash = hash_password("correct horse").expect("hashing succeeds");
    assert!(hash.starts_with("$argon2id$v=19$m=19456,t=2,p=1$"));
    assert_ne!(hash, "correct horse");
    assert_eq!(hash.matches('$').count(), 5);
}

#[test]
fn fresh_salt_is_twenty_two_characters_of_b64() {
    for _ in 0..8 {
        let hash = hash_password("pw1").expect("hashing succeeds");
        let salt = hash.split('$').nth(4).expect("the salt field");
        assert_eq!(salt.chars().count(), 22);
        assert!(salt.chars().all(|c| c.is_ascii_alphanumeric() || c == '+' || c == '/'));
    }
}

#[test]
fn hash_with_salt_verifies_for_its_password() {
    for (password, salt) in [
        ("pw1", SALT),
        ("", "AAAAAAAAAAAAAAAAAAAAAA"),
        ("pässwörd 令牌", "+/+/+/+/+/+/+/+/+/+/+w"),
        ("x", "abcdefghijk"),
    ] {
        let hash = hash_password_with_salt(password, salt).expect("hashing succeeds");
        assert!(verify_password(&hash, password), "{password:?} {salt:?}");
    }
}

#[test]
fn each_hash_uses_a_fresh_salt() {
    let first = hash_password("pw1").expect("hashing succeeds");
    let second = hash_password("pw1").expect("hashing succeeds");
    assert_ne!(first, second);
    assert!(verify_password(&first, "pw1"));
    assert!(verify_password(&second, "pw1"));
}

#[test]
fn hash_with_salt_is_determined_by_password_and_salt() {
    let first = hash_password_with_salt("pw1", SALT).expect("hashing succeeds");
    let second = hash_password_with_salt("pw1", SALT).expect("hashing succeeds");
    assert_eq!(first, second);
    assert!(first.starts_with("$argon2id$v=19$m=19456,t=2,p=1$c29tZXNhbHRzb21lc2FsdA$"));
    let other_password = hash_password_with_salt("pw2", SALT).expect("hashing succeeds");
    assert_ne!(first, other_password);
    let other_salt = hash_password_with_salt("pw1", "YW5vdGhlcnNhbHRhbm90aGVy").expect("hashing succeeds");
    assert_ne!(first, other_salt);
    assert!(verify_password(&first, "pw1"));
    assert!(!verify_password(&first, "pw2"));
}

#[test]
fn hash_with_an_unusable_salt_fails() {
    assert_eq!(hash_password_with_salt("pw1", ""), Err(HashError::Hashing));
    assert_eq!(hash_password_with_salt("pw1", "abc"), Err(HashError::Hashing));
    assert_eq!(hash_password_with_salt("pw1", "not base64 !!"), Err(HashError::Hashing));
    assert_eq!(hash_password_with_salt("pw1", "////////////////++++++"), Err(HashError::Hashing));
}

#[test]
fn empty_password_round_trips() {
    let hash = hash_password("").expect("hashing succeeds");
    assert!(verify_password(&hash, ""));
    assert!(!verify_password(&hash, "x"));
}

#[test]
fn malformed_hash_counts_as_failed_verification() {
    assert!(!verify_password("", "pw1"));
    assert!(!verify_password("pw1", "pw1"));
    assert!(!verify_password("$argon2id$", "pw1"));
    assert!(!verify_password("$argon2id$v=19$m=19456,t=2,p=1$c29tZXNhbHRzb21lc2FsdA", "pw1"));
    assert!(!verify_password("$unknown$v=19$m=19456,t=2,p=1$c29tZXNhbHRzb21lc2FsdA$AAAAAAAAAAAAAAAAAAAAAAAAAAAAAAAAAAAAAAAAAAA", "pw1"));
}

#[test]
fn truncated_hash_does_not_verify() {
    let hash = hash_password_with_salt("pw1", SALT).expect("hashing succeeds");
    let shortened = &hash[..hash.len() - 4];
    assert!(!verify_password(shortened, "pw1"));
}
