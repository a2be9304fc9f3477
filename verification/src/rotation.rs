//! Refresh-token rotation: issuing a pair of tokens for an identity, trading
//! a live refresh token for a new pair, and ending the session.
//!
//! An identity has at most one live refresh token, the one its record holds.
//! A refresh token is accepted only if it verifies, is of the refresh kind
//! and equals that stored value; each successful use replaces the stored
//! value, so a token that was traded in is dead from then on.

use crate::handlers::auth::{TokenResponse, TokenResponseView};
use crate::models::user::{User, UserView};
use crate::utils::clock::current_timestamp;
use crate::utils::jwt::{
    create_jwt_at, spec_create_jwt, spec_expiry_at, spec_issued, spec_verify_jwt, verify_jwt_at,
    ClaimsView, TokenError, TokenKind,
};
use crate::utils::text::same_text;
use vstd::prelude::*;

verus! {

/// Why a refresh token was not traded for a new pair.
#[derive(Debug, Clone, Copy, PartialEq, Eq)]
pub enum RefreshError {
    /// The presented token does not verify.
    InvalidToken,
    /// The presented token verifies but is not a refresh token.
    WrongKind,
    /// No identity is known for the token's subject.
    UnknownSubject,
    /// The presented token is not the identity's live refresh token.
    Mismatch,
    /// The token was accepted but the new pair could not be issued.
    Issuance(TokenError),
}

/// The pair of tokens issued for `subject` at `now`: an access token, then a
/// refresh token, each with the lifetime of its kind.
pub open spec fn spec_issue_pair(subject: Seq<char>, secret: Seq<char>, now: int) -> Result<
    TokenResponseView,
    TokenError,
> {
    match spec_create_jwt(
        subject,
        TokenKind::Access.spec_ttl_minutes(),
        TokenKind::Access.spec_label(),
        secret,
        now,
    ) {
        Err(e) => Err(e),
        Ok(access_token) => match spec_create_jwt(
            subject,
            TokenKind::Refresh.spec_ttl_minutes(),
            TokenKind::Refresh.spec_label(),
            secret,
            now,
        ) {
            Err(e) => Err(e),
            Ok(refresh_token) => Ok(TokenResponseView { access_token, refresh_token }),
        },
    }
}

/// The subject on whose behalf a presented refresh token speaks at `now`.
pub open spec fn spec_refresh_subject(presented: Seq<char>, secret: Seq<char>, now: int) -> Result<
    Seq<char>,
    RefreshError,
> {
    match spec_verify_jwt(presented, secret, now) {
        Err(_) => Err(RefreshError::InvalidToken),
        Ok(claims) => if claims.token_type == TokenKind::Refresh.spec_label() {
            Ok(claims.sub)
        } else {
            Err(RefreshError::WrongKind)
        },
    }
}

/// What presenting a refresh token at `now` yields, given the record that
/// the directory holds for the token's subject, if any: the new pair and the
/// record as it is to be stored, or the reason for the refusal.
pub open spec fn spec_refresh(
    presented: Seq<char>,
    found: Option<UserView>,
    secret: Seq<char>,
    now: int,
) -> Result<(TokenResponseView, UserView), RefreshError> {
    match spec_refresh_subject(presented, secret, now) {
        Err(e) => Err(e),
        Ok(subject) => match found {
            None => Err(RefreshError::UnknownSubject),
            Some(user) => if user.email != subject {
                Err(RefreshError::UnknownSubject)
            } else if !user.holds_refresh_token(presented) {
                Err(RefreshError::Mismatch)
            } else {
                match spec_issue_pair(user.email, secret, now) {
                    Err(e) => Err(RefreshError::Issuance(e)),
                    Ok(pair) => Ok((pair, user.with_refresh_token(pair.refresh_token))),
                }
            },
        },
    }
}

/// The view of the result of a refresh.
pub open spec fn refresh_result_view(r: Result<(TokenResponse, User), RefreshError>) -> Result<
    (TokenResponseView, UserView),
    RefreshError,
> {
    match r {
        Ok((pair, user)) => Ok((pair@, user@)),
        Err(e) => Err(e),
    }
}

/// The view of the result of reading a token's subject.
pub open spec fn subject_result_view(r: Result<String, RefreshError>) -> Result<
    Seq<char>,
    RefreshError,
> {
    match r {
        Ok(subject) => Ok(subject@),
        Err(e) => Err(e),
    }
}

/// What it means that a pair was issued for `subject` at `now`: each token
/// is the outcome of issuing its kind, so neither is empty and each decodes
/// under the secret to the claims of its kind.
pub open spec fn spec_pair_issued(
    pair: TokenResponseView,
    subject: Seq<char>,
    secret: Seq<char>,
    now: int,
) -> bool {
    &&& spec_issued(
        Ok(pair.access_token),
        subject,
        TokenKind::Access.spec_ttl_minutes(),
        TokenKind::Access.spec_label(),
        secret,
        now,
    )
    &&& spec_issued(
        Ok(pair.refresh_token),
        subject,
        TokenKind::Refresh.spec_ttl_minutes(),
        TokenKind::Refresh.spec_label(),
        secret,
        now,
    )
}

/// What it means that `r` is the outcome of issuing a pair at `now` for the
/// record `before`, which leaves it as `after`: on success the pair is the
/// issued one and its refresh token is the record's live one; on failure the
/// record is as it was.
pub open spec fn spec_issue_outcome(
    r: Result<TokenResponseView, TokenError>,
    before: UserView,
    after: UserView,
    secret: Seq<char>,
    now: int,
) -> bool {
    match spec_issue_pair(before.email, secret, now) {
        Ok(pair) => r == Ok::<TokenResponseView, TokenError>(pair) && after
            == before.with_refresh_token(pair.refresh_token) && spec_pair_issued(
            pair,
            before.email,
            secret,
            now,
        ),
        Err(e) => r == Err::<TokenResponseView, TokenError>(e) && after == before,
    }
}

/// The expiry instant of a refresh token issued at `now`.
pub open spec fn spec_refresh_expiry(now: int) -> Result<usize, TokenError> {
    spec_expiry_at(now, TokenKind::Refresh.spec_ttl_minutes())
}

/// What it means that `r` is the outcome of presenting a refresh token at
/// `now` against the record `before`, which leaves it as `after`: it is what
/// [`spec_refresh`] gives; a refused token leaves the record as it was; a
/// pair that comes back was issued at `now`, and its refresh token differs
/// from the presented one unless the two expire at the same instant.
pub open spec fn spec_rotate_outcome(
    r: Result<TokenResponseView, RefreshError>,
    presented: Seq<char>,
    before: UserView,
    after: UserView,
    secret: Seq<char>,
    now: int,
) -> bool {
    match spec_refresh(presented, Some(before), secret, now) {
        Ok((pair, next)) => {
            &&& r == Ok::<TokenResponseView, RefreshError>(pair)
            &&& after == next
            &&& spec_pair_issued(pair, before.email, secret, now)
            &&& spec_verify_jwt(presented, secret, now)->Ok_0.exp != spec_refresh_expiry(
                now,
            )->Ok_0 ==> pair.refresh_token != presented
        },
        Err(e) => r == Err::<TokenResponseView, RefreshError>(e) && after == before,
    }
}

/// The view of the result of issuing a pair.
pub open spec fn pair_result_view<E>(r: Result<TokenResponse, E>) -> Result<TokenResponseView, E> {
    match r {
        Ok(pair) => Ok(pair@),
        Err(e) => Err(e),
    }
}

/// Issues an access token and a refresh token for the identity at `now` and
/// makes the refresh token the identity's live one, replacing whatever was
/// stored. Where issuing fails the record is left as it was.
pub fn issue_pair_at(user: &mut User, secret: &str, now: i64) -> (r: Result<
    TokenResponse,
    TokenError,
>)
    ensures
        spec_issue_outcome(pair_result_view(r), old(user)@, final(user)@, secret@, now as int),
{
    let access = TokenKind::Access;
    let refresh = TokenKind::Refresh;
    let access_token = match create_jwt_at(
        user.email.as_str(),
        access.ttl_minutes(),
        access.label(),
        secret,
        now,
    ) {
        Ok(token) => token,
        Err(e) => {
            return Err(e);
        },
    };
    let refresh_token = match create_jwt_at(
        user.email.as_str(),
        refresh.ttl_minutes(),
        refresh.label(),
        secret,
        now,
    ) {
        Ok(token) => token,
        Err(e) => {
            return Err(e);
        },
    };
    user.refresh_token = Some(refresh_token.clone());
    Ok(TokenResponse { access_token, refresh_token })
}

/// Issues a pair for the identity now; see [`issue_pair_at`]. The time of
/// the call is not known beforehand, so the contract says that some instant,
/// not before the epoch, explains the outcome.
pub fn issue_pair(user: &mut User, secret: &str) -> (r: Result<TokenResponse, TokenError>)
    ensures
        exists|now: i64|
            now >= 0 && #[trigger] spec_issue_outcome(
                pair_result_view(r),
                old(user)@,
                final(user)@,
                secret@,
                now as int,
            ),
{
    let now = current_timestamp();
    issue_pair_at(user, secret, now)
}

/// Verifies a presented refresh token at `now` and returns the subject
/// whose record is to be looked up.
pub fn refresh_subject_at(presented: &str, secret: &str, now: i64) -> (r: Result<
    String,
    RefreshError,
>)
    ensures
        subject_result_view(r) == spec_refresh_subject(presented@, secret@, now as int),
{
    match verify_jwt_at(presented, secret, now) {
        Err(_) => Err(RefreshError::InvalidToken),
        Ok(claims) => {
            if same_text(claims.token_type.as_str(), TokenKind::Refresh.label()) {
                Ok(claims.sub)
            } else {
                Err(RefreshError::WrongKind)
            }
        },
    }
}

/// Trades a presented refresh token for a new pair at `now`, against the
/// identity's record: the record's live token becomes the new refresh token,
/// and the presented one is dead from then on unless the new one is the very
/// same token, which can only be where both expire at the same instant.
/// Where the token is refused the record is left as it was.
pub fn rotate_at(presented: &str, user: &mut User, secret: &str, now: i64) -> (r: Result<
    TokenResponse,
    RefreshError,
>)
    ensures
        spec_rotate_outcome(
            pair_result_view(r),
            presented@,
            old(user)@,
            final(user)@,
            secret@,
            now as int,
        ),
{
    let subject = match refresh_subject_at(presented, secret, now) {
        Ok(subject) => subject,
        Err(e) => {
            return Err(e);
        },
    };
    if !same_text(user.email.as_str(), subject.as_str()) {
        return Err(RefreshError::UnknownSubject);
    }
    if !user.holds_refresh_token(presented) {
        return Err(RefreshError::Mismatch);
    }
    match issue_pair_at(user, secret, now) {
        Ok(pair) => Ok(pair),
        Err(e) => Err(RefreshError::Issuance(e)),
    }
}

/// Trades a presented refresh token for a new pair at `now`, given what the
/// directory returned for the token's subject. On success the record comes
/// back as it is to be stored.
pub fn refresh_at(presented: &str, found: Option<User>, secret: &str, now: i64) -> (r: Result<
    (TokenResponse, User),
    RefreshError,
>)
    ensures
        refresh_result_view(r) == spec_refresh(
            presented@,
            match found {
                Some(user) => Some(user@),
                None => None,
            },
            secret@,
            now as int,
        ),
        r matches Ok((pair, next)) ==> spec_rotate_outcome(
            Ok(pair@),
            presented@,
            found->0@,
            next@,
            secret@,
            now as int,
        ),
{
    match found {
        Some(user) => {
            let mut user = user;
            match rotate_at(presented, &mut user, secret, now) {
                Ok(pair) => Ok((pair, user)),
                Err(e) => Err(e),
            }
        },
        None => match refresh_subject_at(presented, secret, now) {
            Ok(_) => Err(RefreshError::UnknownSubject),
            Err(e) => Err(e),
        },
    }
}

/// Ends the identity's refresh session: no refresh token is live any more.
/// Access tokens that are out stay valid until they expire.
pub fn revoke(user: &mut User)
    ensures
        final(user)@ == old(user)@.without_refresh_token(),
{
    user.refresh_token = None;
}

/// A refresh token is traded in only if it verifies as a refresh token for
/// the record's identity and is the record's live token: a valid signature
/// and an expiry ahead are necessary and not sufficient.
pub proof fn lemma_refresh_needs_live_token(
    presented: Seq<char>,
    found: Option<UserView>,
    secret: Seq<char>,
    now: int,
)
    requires
        spec_refresh(presented, found, secret, now) is Ok,
    ensures
        spec_verify_jwt(presented, secret, now) is Ok,
        spec_verify_jwt(presented, secret, now)->Ok_0.token_type
            == TokenKind::Refresh.spec_label(),
        found is Some,
        found->0.email == spec_verify_jwt(presented, secret, now)->Ok_0.sub,
        found->0.refresh_token == Some(presented),
        spec_refresh(presented, found, secret, now)->Ok_0.1 == found->0.with_refresh_token(
            spec_refresh(presented, found, secret, now)->Ok_0.0.refresh_token,
        ),
{
}

/// Once a refresh token has been traded for a pair whose refresh token
/// differs from it, presenting it again against the updated record fails:
/// with a mismatch while it still verifies, as an invalid token once it has
/// expired.
pub proof fn lemma_rotation_invalidates_presented(
    presented: Seq<char>,
    user: UserView,
    secret: Seq<char>,
    now: int,
    later: int,
)
    requires
        spec_refresh(presented, Some(user), secret, now) is Ok,
        spec_refresh(presented, Some(user), secret, now)->Ok_0.0.refresh_token != presented,
    ensures
        ({
            let next = spec_refresh(presented, Some(user), secret, now)->Ok_0.1;
            let again = spec_refresh(presented, Some(next), secret, later);
            &&& again is Err
            &&& spec_verify_jwt(presented, secret, later) is Ok ==> again == Err::<
                (TokenResponseView, UserView),
                RefreshError,
            >(RefreshError::Mismatch)
            &&& spec_verify_jwt(presented, secret, later) is Err ==> again == Err::<
                (TokenResponseView, UserView),
                RefreshError,
            >(RefreshError::InvalidToken)
        }),
{
}

/// After the session has been ended, no refresh token is traded in for the
/// identity, whether it verifies or not; one that verifies as a refresh
/// token of the identity is refused as a mismatch.
pub proof fn lemma_revoke_invalidates(
    presented: Seq<char>,
    user: UserView,
    secret: Seq<char>,
    now: int,
)
    ensures
        ({
            let after = spec_refresh(presented, Some(user.without_refresh_token()), secret, now);
            &&& after is Err
            &&& spec_refresh_subject(presented, secret, now) == Ok::<Seq<char>, RefreshError>(
                user.email,
            ) ==> after == Err::<(TokenResponseView, UserView), RefreshError>(
                RefreshError::Mismatch,
            )
        }),
{
}

/// A pair that was issued can be used at once: neither token is empty, the
/// two differ, and at the instant of issue each verifies under the secret as
/// a token of its kind for the subject, so the refresh token speaks for the
/// subject.
pub proof fn lemma_issued_pair_is_usable(
    pair: TokenResponseView,
    subject: Seq<char>,
    secret: Seq<char>,
    now: int,
)
    requires
        spec_pair_issued(pair, subject, secret, now),
    ensures
        pair.access_token.len() > 0,
        pair.refresh_token.len() > 0,
        pair.access_token != pair.refresh_token,
        spec_verify_jwt(pair.access_token, secret, now) == Ok::<ClaimsView, TokenError>(
            ClaimsView {
                sub: subject,
                exp: spec_expiry_at(now, TokenKind::Access.spec_ttl_minutes())->Ok_0 as nat,
                token_type: TokenKind::Access.spec_label(),
            },
        ),
        spec_verify_jwt(pair.refresh_token, secret, now) == Ok::<ClaimsView, TokenError>(
            ClaimsView {
                sub: subject,
                exp: spec_refresh_expiry(now)->Ok_0 as nat,
                token_type: TokenKind::Refresh.spec_label(),
            },
        ),
        spec_refresh_subject(pair.refresh_token, secret, now) == Ok::<Seq<char>, RefreshError>(
            subject,
        ),
        spec_refresh_subject(pair.access_token, secret, now) == Err::<Seq<char>, RefreshError>(
            RefreshError::WrongKind,
        ),
{
    reveal_strlit("access");
    reveal_strlit("refresh");
    assert("access"@ != "refresh"@) by {
        assert("access"@.len() == 6);
        assert("refresh"@.len() == 7);
    }
}

/// Once a presented refresh token has been traded in at an instant at which
/// a new refresh token expires later than the presented one, presenting it
/// again against the updated record fails at every instant: the new token is
/// another token, so the old one no longer matches.
pub proof fn lemma_rotation_outcome_invalidates_presented(
    pair: TokenResponseView,
    presented: Seq<char>,
    before: UserView,
    after: UserView,
    secret: Seq<char>,
    now: int,
    later: int,
)
    requires
        spec_rotate_outcome(Ok(pair), presented, before, after, secret, now),
        spec_verify_jwt(presented, secret, now)->Ok_0.exp != spec_refresh_expiry(now)->Ok_0,
    ensures
        pair.refresh_token != presented,
        spec_refresh(presented, Some(after), secret, later) is Err,
        spec_verify_jwt(presented, secret, later) is Ok ==> spec_refresh(
            presented,
            Some(after),
            secret,
            later,
        ) == Err::<(TokenResponseView, UserView), RefreshError>(RefreshError::Mismatch),
{
}

} // verus!
