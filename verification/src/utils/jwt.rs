//! Stateless signing and verification of bearer tokens (HMAC-SHA256 JWTs)
//! that carry a subject, an expiry instant and a token kind.

use crate::utils::clock::current_timestamp;
use vstd::prelude::*;

verus! {

/// The payload carried inside a signed token.
#[derive(Debug, Clone, PartialEq, Eq)]
pub struct Claims {
    /// The identity's email.
    pub sub: String,
    /// Absolute expiry, in seconds since the epoch.
    pub exp: usize,
    /// `"access"` or `"refresh"`.
    pub token_type: String,
}

/// The mathematical value of [`Claims`].
pub struct ClaimsView {
    pub sub: Seq<char>,
    pub exp: nat,
    pub token_type: Seq<char>,
}

impl View for Claims {
    type V = ClaimsView;

    open spec fn view(&self) -> ClaimsView {
        ClaimsView { sub: self.sub@, exp: self.exp as nat, token_type: self.token_type@ }
    }
}

/// The two kinds of token the service issues.
#[derive(Debug, Clone, Copy, PartialEq, Eq, Structural)]
pub enum TokenKind {
    Access,
    Refresh,
}

/// Why a token could not be issued or was not accepted.
#[derive(Debug, Clone, Copy, PartialEq, Eq, Structural)]
pub enum TokenError {
    /// The token's structure or payload cannot be parsed.
    Malformed,
    /// The signature does not match the token's content.
    SignatureInvalid,
    /// The expiry instant is not after the time of the check.
    Expired,
    /// The expiry instant to be written is too large to be stored.
    ExpiryOutOfRange,
    /// The signer reported a failure.
    Signing,
}

/// Why decoding a token stopped before its payload could be read.
#[derive(Debug, Clone, Copy, PartialEq, Eq, Structural)]
pub enum DecodeFailure {
    /// The signature does not match.
    Signature,
    /// Anything else: the shape, the header, the encoding or the payload.
    Structure,
}

/// What a token's payload holds in the three claims the service reads, each
/// absent where the payload lacks it or holds another type of value.
#[derive(Debug, Clone, PartialEq, Eq)]
pub struct DecodedPayload {
    pub sub: Option<String>,
    pub exp: Option<u64>,
    pub token_type: Option<String>,
}

/// The mathematical value of [`DecodedPayload`].
pub struct DecodedPayloadView {
    pub sub: Option<Seq<char>>,
    pub exp: Option<u64>,
    pub token_type: Option<Seq<char>>,
}

/// The view of an optional string.
pub open spec fn opt_str_view(s: Option<String>) -> Option<Seq<char>> {
    match s {
        Some(text) => Some(text@),
        None => None,
    }
}

impl View for DecodedPayload {
    type V = DecodedPayloadView;

    open spec fn view(&self) -> DecodedPayloadView {
        DecodedPayloadView {
            sub: opt_str_view(self.sub),
            exp: self.exp,
            token_type: opt_str_view(self.token_type),
        }
    }
}

/// The token that signing the claims `sub`, `exp`, `token_type` with the
/// secret under HS256 yields, or `None` where the signer fails.
pub uninterp spec fn signed_token(
    sub: Seq<char>,
    exp: u64,
    token_type: Seq<char>,
    secret: Seq<char>,
) -> Option<Seq<char>>;

/// What decoding a token under a secret yields, the expiry left unjudged:
/// the three claims of a token whose HS256 signature matches and whose
/// payload parses, else the reason.
pub uninterp spec fn decoded_token(token: Seq<char>, secret: Seq<char>) -> Result<
    DecodedPayloadView,
    DecodeFailure,
>;

/// Whether a token decodes under the secret to exactly these three claims.
pub open spec fn decodes_to(
    token: Seq<char>,
    secret: Seq<char>,
    sub: Seq<char>,
    exp: u64,
    token_type: Seq<char>,
) -> bool {
    decoded_token(token, secret) == Ok::<DecodedPayloadView, DecodeFailure>(
        DecodedPayloadView { sub: Some(sub), exp: Some(exp), token_type: Some(token_type) },
    )
}

#[verifier::external_type_specification]
#[verifier::external_body]
pub struct ExJwtError(jsonwebtoken::errors::Error);

/// `jsonwebtoken::encode` with the default header (HS256) on a JSON object
/// of the three claims, written under the keys `exp`, `sub` and
/// `token_type`. The contract gives the outcome its name, as a function of
/// the claims and the secret, and says two things of a token that was made.
/// It is not empty: it is three parts joined by dots. And it decodes under
/// the same secret to the claims it was made from: the decoder signs header
/// and payload again and compares, and the payload is the JSON text of two
/// strings and an unsigned integer, which parse back to themselves.
#[verifier::external_body]
fn sign_claims(sub: &str, exp: u64, token_type: &str, secret: &str) -> (r: Result<
    String,
    jsonwebtoken::errors::Error,
>)
    ensures
        match signed_token(sub@, exp, token_type@, secret@) {
            Some(token) => r matches Ok(t) && t@ == token,
            None => r is Err,
        },
        r matches Ok(t) ==> t@.len() > 0,
        r matches Ok(t) ==> decodes_to(t@, secret@, sub@, exp, token_type@),
{
    let mut claims = serde_json::Map::new();
    claims.insert("exp".to_string(), serde_json::Value::from(exp));
    claims.insert("sub".to_string(), serde_json::Value::from(sub));
    claims.insert("token_type".to_string(), serde_json::Value::from(token_type));
    let key = jsonwebtoken::EncodingKey::from_secret(secret.as_bytes());
    jsonwebtoken::encode(&jsonwebtoken::Header::default(), &claims, &key)
}

/// `jsonwebtoken::decode` under HS256 with the expiry check switched off, so
/// that the outcome is a function of the token and the secret alone: the
/// contract gives it its name. The claims are read with `Value::as_str` and
/// `Value::as_u64`; of the error only its kind is kept.
#[verifier::external_body]
fn decode_payload(token: &str, secret: &str) -> (r: Result<DecodedPayload, DecodeFailure>)
    ensures
        decode_result_view(r) == decoded_token(token@, secret@),
{
    let mut rules = jsonwebtoken::Validation::new(jsonwebtoken::Algorithm::HS256);
    rules.validate_exp = false;
    let key = jsonwebtoken::DecodingKey::from_secret(secret.as_bytes());
    match jsonwebtoken::decode::<serde_json::Value>(token, &key, &rules) {
        Ok(data) => Ok(DecodedPayload {
            sub: data.claims.get("sub").and_then(serde_json::Value::as_str).map(String::from),
            exp: data.claims.get("exp").and_then(serde_json::Value::as_u64),
            token_type: data.claims.get("token_type").and_then(serde_json::Value::as_str).map(String::from),
        }),
        Err(e) => Err(match e.kind() {
            jsonwebtoken::errors::ErrorKind::InvalidSignature => DecodeFailure::Signature,
            _ => DecodeFailure::Structure,
        }),
    }
}

/// The view of a decoding result.
pub open spec fn decode_result_view(r: Result<DecodedPayload, DecodeFailure>) -> Result<
    DecodedPayloadView,
    DecodeFailure,
> {
    match r {
        Ok(payload) => Ok(payload@),
        Err(e) => Err(e),
    }
}

/// The view of a verification result.
pub open spec fn claims_result_view(r: Result<Claims, TokenError>) -> Result<
    ClaimsView,
    TokenError,
> {
    match r {
        Ok(claims) => Ok(claims@),
        Err(e) => Err(e),
    }
}

/// The view of an issuance result.
pub open spec fn token_result_view(r: Result<String, TokenError>) -> Result<
    Seq<char>,
    TokenError,
> {
    match r {
        Ok(token) => Ok(token@),
        Err(e) => Err(e),
    }
}

impl TokenKind {
    /// The text that stands for the kind in a token's `token_type` claim.
    pub open spec fn spec_label(self) -> Seq<char> {
        match self {
            TokenKind::Access => "access"@,
            TokenKind::Refresh => "refresh"@,
        }
    }

    /// The lifetime of a token of this kind, in minutes: a quarter of an hour
    /// for an access token, seven days for a refresh token.
    pub open spec fn spec_ttl_minutes(self) -> int {
        match self {
            TokenKind::Access => 15,
            TokenKind::Refresh => 10080,
        }
    }

    /// The text that stands for the kind in a token's `token_type` claim.
    pub fn label(self) -> (text: &'static str)
        ensures
            text@ == self.spec_label(),
    {
        match self {
            TokenKind::Access => "access",
            TokenKind::Refresh => "refresh",
        }
    }

    /// The lifetime of a token of this kind, in minutes.
    pub fn ttl_minutes(self) -> (minutes: i64)
        ensures
            minutes == self.spec_ttl_minutes(),
    {
        match self {
            TokenKind::Access => 15,
            TokenKind::Refresh => 10080,
        }
    }
}

/// The expiry instant of a token issued at `now` for `minutes` minutes.
pub open spec fn spec_expiry(now: int, minutes: int) -> int {
    now + minutes * 60
}

/// The expiry instant as it is stored. An instant before the epoch is held
/// at the epoch: the token is then expired at every instant from the epoch
/// on. An instant too large to be stored is refused.
pub open spec fn spec_expiry_at(now: int, minutes: int) -> Result<usize, TokenError> {
    let instant = spec_expiry(now, minutes);
    if instant < 0 {
        Ok(0usize)
    } else if instant <= usize::MAX {
        Ok(instant as usize)
    } else {
        Err(TokenError::ExpiryOutOfRange)
    }
}

/// Whether a token decodes under the secret to exactly these claims.
pub open spec fn carries(token: Seq<char>, secret: Seq<char>, claims: ClaimsView) -> bool {
    claims.exp <= u64::MAX && decodes_to(
        token,
        secret,
        claims.sub,
        claims.exp as u64,
        claims.token_type,
    )
}

/// What issuing a token at `now` yields.
pub open spec fn spec_create_jwt(
    user_id: Seq<char>,
    minutes: int,
    token_type: Seq<char>,
    secret: Seq<char>,
    now: int,
) -> Result<Seq<char>, TokenError> {
    match spec_expiry_at(now, minutes) {
        Err(e) => Err(e),
        Ok(exp) => match signed_token(user_id, exp as u64, token_type, secret) {
            Some(token) => Ok(token),
            None => Err(TokenError::Signing),
        },
    }
}

/// What a decoding result means at `now`: the claims where all three are
/// there and the expiry instant is still ahead.
pub open spec fn spec_check_decoded(
    decoded: Result<DecodedPayloadView, DecodeFailure>,
    now: int,
) -> Result<ClaimsView, TokenError> {
    match decoded {
        Err(DecodeFailure::Signature) => Err(TokenError::SignatureInvalid),
        Err(DecodeFailure::Structure) => Err(TokenError::Malformed),
        Ok(payload) => if payload.sub is Some && payload.exp is Some && payload.token_type is Some
            && payload.exp->0 <= usize::MAX {
            if payload.exp->0 <= now {
                Err(TokenError::Expired)
            } else {
                Ok(
                    ClaimsView {
                        sub: payload.sub->0,
                        exp: payload.exp->0 as nat,
                        token_type: payload.token_type->0,
                    },
                )
            }
        } else {
            Err(TokenError::Malformed)
        },
    }
}

/// What verifying a token at `now` yields.
pub open spec fn spec_verify_jwt(token: Seq<char>, secret: Seq<char>, now: int) -> Result<
    ClaimsView,
    TokenError,
> {
    spec_check_decoded(decoded_token(token, secret), now)
}

/// What it means that `r` is the outcome of issuing at `now`: it is what
/// [`spec_create_jwt`] gives, and a token that was issued is not empty and
/// decodes under the secret to the claims it was issued with.
pub open spec fn spec_issued(
    r: Result<Seq<char>, TokenError>,
    user_id: Seq<char>,
    minutes: int,
    token_type: Seq<char>,
    secret: Seq<char>,
    now: int,
) -> bool {
    &&& r == spec_create_jwt(user_id, minutes, token_type, secret, now)
    &&& r matches Ok(token) ==> token.len() > 0 && carries(
        token,
        secret,
        ClaimsView {
            sub: user_id,
            exp: spec_expiry_at(now, minutes)->Ok_0 as nat,
            token_type,
        },
    )
}

/// Computes the expiry instant of a token issued at `now` for `minutes`
/// minutes, or says that it cannot be stored.
pub fn expiry_at(now: i64, minutes: i64) -> (r: Result<usize, TokenError>)
    ensures
        r == spec_expiry_at(now as int, minutes as int),
{
    let instant: i128 = now as i128 + minutes as i128 * 60;
    if instant < 0 {
        Ok(0)
    } else if instant <= usize::MAX as i128 {
        Ok(instant as usize)
    } else {
        Err(TokenError::ExpiryOutOfRange)
    }
}

/// Issues a token for `user_id` that expires `minutes` minutes after `now`.
/// The token verifies under the same secret, with the subject and the kind
/// it was issued with, at every instant before its expiry, and is refused as
/// expired from its expiry on.
pub fn create_jwt_at(user_id: &str, minutes: i64, token_type: &str, secret: &str, now: i64) -> (r:
    Result<String, TokenError>)
    ensures
        spec_issued(
            token_result_view(r),
            user_id@,
            minutes as int,
            token_type@,
            secret@,
            now as int,
        ),
        r matches Ok(token) ==> forall|at: int| #[trigger]
            spec_verify_jwt(token@, secret@, at) == if spec_expiry_at(
                now as int,
                minutes as int,
            )->Ok_0 <= at {
                Err::<ClaimsView, TokenError>(TokenError::Expired)
            } else {
                Ok::<ClaimsView, TokenError>(
                    ClaimsView {
                        sub: user_id@,
                        exp: spec_expiry_at(now as int, minutes as int)->Ok_0 as nat,
                        token_type: token_type@,
                    },
                )
            },
{
    match expiry_at(now, minutes) {
        Err(e) => Err(e),
        Ok(exp) => match sign_claims(user_id, exp as u64, token_type, secret) {
            Ok(token) => Ok(token),
            Err(_) => Err(TokenError::Signing),
        },
    }
}

/// Issues a token for `user_id` that expires `minutes` minutes from now. The
/// time of the call is not known beforehand, so the contract says that some
/// instant, not before the epoch, explains the outcome.
pub fn create_jwt(user_id: &str, minutes: i64, token_type: &str, secret: &str) -> (r: Result<
    String,
    TokenError,
>)
    ensures
        exists|now: i64|
            now >= 0 && #[trigger] spec_issued(
                token_result_view(r),
                user_id@,
                minutes as int,
                token_type@,
                secret@,
                now as int,
            ),
{
    let now = current_timestamp();
    create_jwt_at(user_id, minutes, token_type, secret, now)
}

/// Judges a decoding result at `now`.
pub fn check_decoded(decoded: Result<DecodedPayload, DecodeFailure>, now: i64) -> (r: Result<
    Claims,
    TokenError,
>)
    ensures
        claims_result_view(r) == spec_check_decoded(decode_result_view(decoded), now as int),
{
    match decoded {
        Err(DecodeFailure::Signature) => Err(TokenError::SignatureInvalid),
        Err(DecodeFailure::Structure) => Err(TokenError::Malformed),
        Ok(payload) => {
            let DecodedPayload { sub, exp, token_type } = payload;
            match (sub, exp, token_type) {
                (Some(sub), Some(exp), Some(token_type)) => {
                    if exp > usize::MAX as u64 {
                        Err(TokenError::Malformed)
                    } else if now >= 0 && exp <= now as u64 {
                        Err(TokenError::Expired)
                    } else {
                        Ok(Claims { sub, exp: exp as usize, token_type })
                    }
                },
                _ => Err(TokenError::Malformed),
            }
        },
    }
}

/// Verifies a token at `now`: its signature, its structure and its expiry.
pub fn verify_jwt_at(token: &str, secret: &str, now: i64) -> (r: Result<Claims, TokenError>)
    ensures
        claims_result_view(r) == spec_verify_jwt(token@, secret@, now as int),
{
    check_decoded(decode_payload(token, secret), now)
}

/// Verifies a token against the current time. The time of the call is not
/// known beforehand, so the contract says that some instant, not before the
/// epoch, explains the outcome.
pub fn verify_jwt(token: &str, secret: &str) -> (r: Result<Claims, TokenError>)
    ensures
        exists|now: i64|
            now >= 0 && claims_result_view(r) == #[trigger] spec_verify_jwt(
                token@,
                secret@,
                now as int,
            ),
{
    let now = current_timestamp();
    verify_jwt_at(token, secret, now)
}

/// The subject of a token that verifies at `now`.
pub open spec fn spec_extract_email(token: Seq<char>, secret: Seq<char>, now: int) -> Result<
    Seq<char>,
    TokenError,
> {
    match spec_verify_jwt(token, secret, now) {
        Ok(claims) => Ok(claims.sub),
        Err(e) => Err(e),
    }
}

/// Verifies a token at `now` and returns its subject, whatever its kind.
pub fn extract_email_from_jwt_at(token: &str, secret: &str, now: i64) -> (r: Result<
    String,
    TokenError,
>)
    ensures
        token_result_view(r) == spec_extract_email(token@, secret@, now as int),
{
    match verify_jwt_at(token, secret, now) {
        Ok(claims) => Ok(claims.sub),
        Err(e) => Err(e),
    }
}

/// Verifies a token against the current time and returns its subject. The
/// time of the call is not known beforehand, so the contract says that some
/// instant, not before the epoch, explains the outcome.
pub fn extract_email_from_jwt(token: &str, secret: &str) -> (r: Result<String, TokenError>)
    ensures
        exists|now: i64|
            now >= 0 && token_result_view(r) == #[trigger] spec_extract_email(
                token@,
                secret@,
                now as int,
            ),
{
    let now = current_timestamp();
    extract_email_from_jwt_at(token, secret, now)
}

/// A token issued for no time or for a negative time, at an instant not
/// before the epoch, is refused as expired at the instant of issue and at
/// every instant after it.
pub proof fn lemma_token_without_lifetime_is_expired(
    token: Seq<char>,
    user_id: Seq<char>,
    minutes: int,
    token_type: Seq<char>,
    secret: Seq<char>,
    now: int,
    at: int,
)
    requires
        minutes <= 0,
        0 <= now <= at,
        spec_issued(Ok(token), user_id, minutes, token_type, secret, now),
    ensures
        spec_verify_jwt(token, secret, at) == Err::<ClaimsView, TokenError>(TokenError::Expired),
{
}

/// A token that was issued verifies under the same secret, at every instant
/// before its expiry, with the subject, the expiry and the kind it was
/// issued with.
pub proof fn lemma_issued_token_verifies(
    token: Seq<char>,
    user_id: Seq<char>,
    minutes: int,
    token_type: Seq<char>,
    secret: Seq<char>,
    now: int,
    at: int,
)
    requires
        spec_issued(Ok(token), user_id, minutes, token_type, secret, now),
        at < spec_expiry_at(now, minutes)->Ok_0,
    ensures
        spec_verify_jwt(token, secret, at) == Ok::<ClaimsView, TokenError>(
            ClaimsView {
                sub: user_id,
                exp: spec_expiry_at(now, minutes)->Ok_0 as nat,
                token_type,
            },
        ),
        minutes > 0 ==> now < spec_expiry_at(now, minutes)->Ok_0,
{
}

/// Two tokens that decode under one secret to different claims are
/// different tokens.
pub proof fn lemma_tokens_of_different_claims_differ(
    first: Seq<char>,
    second: Seq<char>,
    secret: Seq<char>,
    first_claims: ClaimsView,
    second_claims: ClaimsView,
)
    requires
        carries(first, secret, first_claims),
        carries(second, secret, second_claims),
        first_claims != second_claims,
    ensures
        first != second,
{
}

/// A token whose payload decodes is refused as expired at its expiry
/// instant and at every instant after it, whatever else it holds: one
/// issued at `now` for no time or a negative time is refused as expired from
/// `now` on.
pub proof fn lemma_expired_token_is_refused(token: Seq<char>, secret: Seq<char>, at: int)
    requires
        decoded_token(token, secret) is Ok,
        decoded_token(token, secret)->Ok_0.sub is Some,
        decoded_token(token, secret)->Ok_0.token_type is Some,
        decoded_token(token, secret)->Ok_0.exp is Some,
        decoded_token(token, secret)->Ok_0.exp->0 <= usize::MAX,
        decoded_token(token, secret)->Ok_0.exp->0 <= at,
    ensures
        spec_verify_jwt(token, secret, at) == Err::<ClaimsView, TokenError>(TokenError::Expired),
{
}

/// A token is accepted exactly when its signature and structure decode, its
/// three claims are there and its expiry instant is ahead; the claims
/// returned are then the decoded ones, subject and kind unchanged.
pub proof fn lemma_verified_claims_are_the_decoded_ones(
    token: Seq<char>,
    secret: Seq<char>,
    now: int,
)
    ensures
        spec_verify_jwt(token, secret, now) is Ok <==> ({
            &&& decoded_token(token, secret) is Ok
            &&& decoded_token(token, secret)->Ok_0.sub is Some
            &&& decoded_token(token, secret)->Ok_0.token_type is Some
            &&& decoded_token(token, secret)->Ok_0.exp is Some
            &&& now < decoded_token(token, secret)->Ok_0.exp->0 <= usize::MAX
        }),
        spec_verify_jwt(token, secret, now) is Ok ==> ({
            let claims = spec_verify_jwt(token, secret, now)->Ok_0;
            let payload = decoded_token(token, secret)->Ok_0;
            &&& claims.sub == payload.sub->0
            &&& claims.token_type == payload.token_type->0
            &&& claims.exp == payload.exp->0
        }),
        decoded_token(token, secret) is Err ==> spec_verify_jwt(token, secret, now) is Err,
{
}

} // verus!
