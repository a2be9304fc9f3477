use std::time::{SystemTime, UNIX_EPOCH};
use token_auth::handlers::auth::TokenResponse;
use token_auth::models::user::User;
use token_auth::rotation::{
    issue_pair, issue_pair_at, refresh_at, refresh_subject_at, revoke, rotate_at, RefreshError,
};
use token_auth::utils::jwt::{create_jwt_at, verify_jwt_at, TokenError};

const KEY: &str = "unit-test-signing-key";
const NOW: i64 = 1_000;

fn present() -> i64 {
    SystemTime::now().duration_since(UNIX_EPOCH).unwrap().as_secs() as i64
}

fn alice() -> User {
    User::new("alice".to_string(), "alice@x.com".to_string(), "stored-hash".to_string())
}

fn logged_in(now: i64) -> (User, TokenResponse) {
    let mut user = alice();
    let pair = issue_pair_at(&mut user, KEY, now).unwrap();
    (user, pair)
}

#[test]
fn new_record_has_no_identifier_and_no_session() {
    let user = alice();
    assert_eq!(user.id, None);
    assert_eq!(user.username, "alice");
    assert_eq!(user.email, "alice@x.com");
    assert_eq!(user.password, "stored-hash");
    assert_eq!(user.refresh_token, None);
    assert!(!user.holds_refresh_token(""));
    assert!(!user.holds_refresh_token("anything"));
}

#[test]
fn issue_pair_mints_both_kinds_and_stores_the_refresh_token() {
    let (user, pair) = logged_in(NOW);
    assert_eq!(pair.access_token, create_jwt_at("alice@x.com", 15, "access", KEY, NOW).unwrap());
    assert_eq!(pair.refresh_token, create_jwt_at("alice@x.com", 10_080, "refresh", KEY, NOW).unwrap());
    assert_ne!(pair.access_token, pair.refresh_token);
    assert_eq!(user.refresh_token, Some(pair.refresh_token.clone()));
    assert!(user.holds_refresh_token(&pair.refresh_token));
    assert!(!user.holds_refresh_token(&pair.access_token));
    let access = verify_jwt_at(&pair.access_token, KEY, NOW).unwrap();
    assert_eq!((access.exp, access.token_type.as_str()), (1_900, "access"));
    let refresh = verify_jwt_at(&pair.refresh_token, KEY, NOW).unwrap();
    assert_eq!((refresh.exp, refresh.token_type.as_str()), (605_800, "refresh"));
    assert_eq!(user, User { refresh_token: Some(pair.refresh_token), ..alice() });
}

#[test]
fn issue_pair_replaces_whatever_was_stored() {
    let (mut user, first) = logged_in(NOW);
    let second = issue_pair_at(&mut user, KEY, NOW + 5).unwrap();
    assert_ne!(first.refresh_token, second.refresh_token);
    assert_eq!(user.refresh_token, Some(second.refresh_token));
    assert!(!user.holds_refresh_token(&first.refresh_token));
}

#[test]
fn issue_pair_long_before_the_epoch_expires_at_the_epoch() {
    let mut user = alice();
    let pair = issue_pair_at(&mut user, KEY, -700_000).unwrap();
    assert_eq!(user.refresh_token, Some(pair.refresh_token.clone()));
    assert_eq!(verify_jwt_at(&pair.access_token, KEY, -700_000).unwrap().exp, 0);
    assert_eq!(verify_jwt_at(&pair.refresh_token, KEY, -1).unwrap().exp, 0);
    assert_eq!(verify_jwt_at(&pair.refresh_token, KEY, 0), Err(TokenError::Expired));
    assert_ne!(pair.access_token, pair.refresh_token);
}

#[test]
fn issue_pair_now_stores_a_refresh_token_that_verifies() {
    let mut user = alice();
    let pair = issue_pair(&mut user, KEY).unwrap();
    assert_eq!(user.refresh_token, Some(pair.refresh_token.clone()));
    assert!(!pair.access_token.is_empty());
    assert_ne!(pair.access_token, pair.refresh_token);
    assert_eq!(
        refresh_subject_at(&pair.refresh_token, KEY, present()),
        Ok("alice@x.com".to_string())
    );
}

#[test]
fn refresh_subject_is_read_from_a_valid_refresh_token() {
    let (_, pair) = logged_in(NOW);
    assert_eq!(refresh_subject_at(&pair.refresh_token, KEY, NOW), Ok("alice@x.com".to_string()));
    assert_eq!(refresh_subject_at(&pair.access_token, KEY, NOW), Err(RefreshError::WrongKind));
    assert_eq!(refresh_subject_at(&pair.refresh_token, KEY, 605_800), Err(RefreshError::InvalidToken));
    assert_eq!(
        refresh_subject_at(&pair.refresh_token, "another-key", NOW),
        Err(RefreshError::InvalidToken)
    );
    assert_eq!(refresh_subject_at("garbage", KEY, NOW), Err(RefreshError::InvalidToken));
}

#[test]
fn refresh_kind_is_matched_exactly() {
    let shouting = create_jwt_at("alice@x.com", 15, "Refresh", KEY, NOW).unwrap();
    assert_eq!(refresh_subject_at(&shouting, KEY, NOW), Err(RefreshError::WrongKind));
    let empty = create_jwt_at("alice@x.com", 15, "", KEY, NOW).unwrap();
    assert_eq!(refresh_subject_at(&empty, KEY, NOW), Err(RefreshError::WrongKind));
}

#[test]
fn refresh_rotates_the_stored_token() {
    let (mut user, first) = logged_in(NOW);
    let second = rotate_at(&first.refresh_token, &mut user, KEY, NOW + 1).unwrap();
    assert_ne!(second.refresh_token, first.refresh_token);
    assert_ne!(second.access_token, first.access_token);
    assert_eq!(second.refresh_token, create_jwt_at("alice@x.com", 10_080, "refresh", KEY, NOW + 1).unwrap());
    assert_eq!(second.access_token, create_jwt_at("alice@x.com", 15, "access", KEY, NOW + 1).unwrap());
    assert_eq!(user.refresh_token, Some(second.refresh_token));
}

#[test]
fn refresh_with_a_stale_token_is_a_mismatch() {
    let (mut user, first) = logged_in(NOW);
    let second = rotate_at(&first.refresh_token, &mut user, KEY, NOW + 1).unwrap();
    let before = user.clone();
    assert_eq!(rotate_at(&first.refresh_token, &mut user, KEY, NOW + 2), Err(RefreshError::Mismatch));
    assert_eq!(user, before);
    assert_eq!(rotate_at(&first.refresh_token, &mut user, KEY, NOW + 1), Err(RefreshError::Mismatch));
    assert_eq!(user, before);
    let third = rotate_at(&second.refresh_token, &mut user, KEY, NOW + 3).unwrap();
    assert_eq!(user.refresh_token, Some(third.refresh_token));
    assert_eq!(rotate_at(&second.refresh_token, &mut user, KEY, NOW + 4), Err(RefreshError::Mismatch));
}

#[test]
fn refresh_with_a_stale_token_that_has_expired_is_invalid() {
    let (mut user, first) = logged_in(NOW);
    rotate_at(&first.refresh_token, &mut user, KEY, NOW + 1).unwrap();
    let before = user.clone();
    assert_eq!(rotate_at(&first.refresh_token, &mut user, KEY, 605_800), Err(RefreshError::InvalidToken));
    assert_eq!(user, before);
}

#[test]
fn refresh_within_the_same_second_reissues_the_same_token() {
    let (mut user, first) = logged_in(NOW);
    let second = rotate_at(&first.refresh_token, &mut user, KEY, NOW).unwrap();
    assert_eq!(second, first);
    assert_eq!(user.refresh_token, Some(first.refresh_token.clone()));
    assert!(rotate_at(&first.refresh_token, &mut user, KEY, NOW).is_ok());
}

#[test]
fn refresh_after_revoke_is_a_mismatch() {
    let (mut user, pair) = logged_in(NOW);
    revoke(&mut user);
    assert_eq!(user, alice());
    assert_eq!(rotate_at(&pair.refresh_token, &mut user, KEY, NOW + 1), Err(RefreshError::Mismatch));
    assert_eq!(user.refresh_token, None);
    assert_eq!(rotate_at("garbage", &mut user, KEY, NOW + 1), Err(RefreshError::InvalidToken));
    assert_eq!(rotate_at(&pair.access_token, &mut user, KEY, NOW + 1), Err(RefreshError::WrongKind));
    assert_eq!(user, alice());
}

#[test]
fn revoke_leaves_access_tokens_valid() {
    let (mut user, pair) = logged_in(NOW);
    revoke(&mut user);
    assert_eq!(verify_jwt_at(&pair.access_token, KEY, NOW + 1).unwrap().sub, "alice@x.com");
    revoke(&mut user);
    assert_eq!(user.refresh_token, None);
}

#[test]
fn login_after_revoke_opens_a_new_session() {
    let (mut user, first) = logged_in(NOW);
    revoke(&mut user);
    let second = issue_pair_at(&mut user, KEY, NOW + 10).unwrap();
    assert_eq!(rotate_at(&first.refresh_token, &mut user, KEY, NOW + 11), Err(RefreshError::Mismatch));
    assert!(rotate_at(&second.refresh_token, &mut user, KEY, NOW + 11).is_ok());
}

#[test]
fn refresh_is_refused_in_the_order_of_the_checks() {
    let (mut user, pair) = logged_in(NOW);
    let before = user.clone();
    assert_eq!(rotate_at("garbage", &mut user, KEY, NOW), Err(RefreshError::InvalidToken));
    assert_eq!(rotate_at(&pair.access_token, &mut user, KEY, NOW), Err(RefreshError::WrongKind));
    let for_bob = create_jwt_at("bob@x.com", 10_080, "refresh", KEY, NOW).unwrap();
    assert_eq!(rotate_at(&for_bob, &mut user, KEY, NOW), Err(RefreshError::UnknownSubject));
    let other = create_jwt_at("alice@x.com", 10_080, "refresh", KEY, NOW + 7).unwrap();
    assert_eq!(rotate_at(&other, &mut user, KEY, NOW), Err(RefreshError::Mismatch));
    assert_eq!(user, before);
}

#[test]
fn refresh_against_the_lookup_result() {
    let (user, pair) = logged_in(NOW);
    assert_eq!(refresh_at(&pair.refresh_token, None, KEY, NOW + 1), Err(RefreshError::UnknownSubject));
    assert_eq!(refresh_at("garbage", None, KEY, NOW + 1), Err(RefreshError::InvalidToken));
    assert_eq!(refresh_at(&pair.access_token, None, KEY, NOW + 1), Err(RefreshError::WrongKind));
    assert_eq!(
        refresh_at(&pair.access_token, Some(user.clone()), KEY, NOW + 1),
        Err(RefreshError::WrongKind)
    );
    let (next_pair, next_user) = refresh_at(&pair.refresh_token, Some(user.clone()), KEY, NOW + 1).unwrap();
    assert_eq!(next_user, User { refresh_token: Some(next_pair.refresh_token.clone()), ..user });
    assert_ne!(next_pair.refresh_token, pair.refresh_token);
    assert_eq!(
        refresh_at(&pair.refresh_token, Some(next_user), KEY, NOW + 2),
        Err(RefreshError::Mismatch)
    );
}

#[test]
fn issued_pair_can_be_used_at_once() {
    for now in [0, NOW, 1_700_000_000, -5] {
        let (user, pair) = logged_in(now);
        assert!(!pair.access_token.is_empty());
        assert!(!pair.refresh_token.is_empty());
        assert_ne!(pair.access_token, pair.refresh_token);
        assert_eq!(verify_jwt_at(&pair.access_token, KEY, now).unwrap().token_type, "access");
        assert_eq!(verify_jwt_at(&pair.refresh_token, KEY, now).unwrap().token_type, "refresh");
        assert_eq!(refresh_subject_at(&pair.refresh_token, KEY, now), Ok(user.email.clone()));
        assert_eq!(refresh_subject_at(&pair.access_token, KEY, now), Err(RefreshError::WrongKind));
    }
}

#[test]
fn refresh_with_a_token_of_another_expiry_gives_another_token() {
    let (mut user, first) = logged_in(NOW);
    for step in 1..20 {
        let presented = user.refresh_token.clone().unwrap();
        let before = verify_jwt_at(&presented, KEY, NOW).unwrap().exp;
        let pair = rotate_at(&presented, &mut user, KEY, NOW + step * step).unwrap();
        let after = verify_jwt_at(&pair.refresh_token, KEY, NOW).unwrap().exp;
        assert_ne!(before, after);
        assert_ne!(pair.refresh_token, presented);
        assert_eq!(
            rotate_at(&presented, &mut user, KEY, NOW + step * step),
            Err(RefreshError::Mismatch)
        );
    }
    assert_eq!(rotate_at(&first.refresh_token, &mut user, KEY, NOW), Err(RefreshError::Mismatch));
}
