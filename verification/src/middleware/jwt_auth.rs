//! The guard in front of protected routes: it reads the `Authorization`
//! header, verifies the bearer token and either hands the request on, with
//! the verified claims attached, or answers in the handler's place.

use crate::handlers::reply::{spec_text_reply, HttpReply, HttpReplyView, UNAUTHORIZED};
use crate::utils::clock::current_timestamp;
use crate::utils::jwt::{spec_verify_jwt, verify_jwt_at, Claims, ClaimsView, TokenError};
use crate::utils::text::{spec_strip_prefix, strip_prefix};
use vstd::prelude::*;

verus! {

/// The scheme of the credentials the guard accepts, with the space that
/// separates it from the token. The match is case-sensitive.
pub open spec fn bearer_prefix() -> Seq<char> {
    "Bearer "@
}

/// The view of a header that may be absent.
pub open spec fn header_view(header: Option<&str>) -> Option<Seq<char>> {
    match header {
        Some(text) => Some(text@),
        None => None,
    }
}

/// The token that an `Authorization` header carries: what follows `Bearer `,
/// where the header is there and starts with it.
pub open spec fn spec_bearer_token(authorization: Option<Seq<char>>) -> Option<Seq<char>> {
    match authorization {
        Some(text) => spec_strip_prefix(text, bearer_prefix()),
        None => None,
    }
}

/// What the guard decides, as a mathematical value.
pub enum GuardOutcome {
    /// The request goes on to the handler with these claims attached.
    Forward(ClaimsView),
    /// The guard answers itself and the handler is not invoked.
    Reject(HttpReplyView),
}

/// What the guard decides for a request at `now`.
pub open spec fn spec_guard(authorization: Option<Seq<char>>, secret: Seq<char>, now: int) -> GuardOutcome {
    match spec_bearer_token(authorization) {
        None => GuardOutcome::Reject(spec_text_reply(UNAUTHORIZED, "Missing token"@)),
        Some(token) => match spec_verify_jwt(token, secret, now) {
            Ok(claims) => GuardOutcome::Forward(claims),
            Err(_) => GuardOutcome::Reject(spec_text_reply(UNAUTHORIZED, "Invalid token"@)),
        },
    }
}

/// Extracts the bearer token from an `Authorization` header.
pub fn bearer_token<'a>(authorization: Option<&'a str>) -> (token: Option<&'a str>)
    ensures
        header_view(token) == spec_bearer_token(header_view(authorization)),
{
    match authorization {
        Some(text) => strip_prefix(text, "Bearer "),
        None => None,
    }
}

/// The factory of the guard: it wraps a downstream service.
#[derive(Debug, Clone, Copy)]
pub struct AuthMiddleware;

/// The guard around one downstream service. A request reaches the service
/// only through a decision to forward.
pub struct AuthMiddlewareMiddleware<S> {
    service: S,
}

/// What the guard decided for one request.
pub enum GuardDecision<'a, S> {
    /// Invoke the downstream service with the claims attached to the request
    /// and return its answer unmodified.
    Forward { service: &'a S, claims: Claims },
    /// Answer with this and do not invoke the downstream service.
    Reject(HttpReply),
}

impl<'a, S> GuardDecision<'a, S> {
    /// The decision as a mathematical value.
    pub open spec fn outcome(self) -> GuardOutcome {
        match self {
            GuardDecision::Forward { service, claims } => GuardOutcome::Forward(claims@),
            GuardDecision::Reject(reply) => GuardOutcome::Reject(reply@),
        }
    }
}

impl AuthMiddleware {
    /// Puts the guard in front of `service`.
    pub fn new_transform<S>(&self, service: S) -> (guard: AuthMiddlewareMiddleware<S>)
        ensures
            guard.inner() == service,
    {
        AuthMiddlewareMiddleware { service }
    }
}

impl<S> AuthMiddlewareMiddleware<S> {
    /// The downstream service.
    pub closed spec fn inner(&self) -> S {
        self.service
    }

    /// The downstream service, for what does not handle a request: asking
    /// whether it is ready, for one.
    pub fn service(&self) -> (service: &S)
        ensures
            *service == self.inner(),
    {
        &self.service
    }

    /// Decides at `now` whether a request with this `Authorization` header
    /// may reach the downstream service. Any token that verifies is accepted,
    /// whatever its kind.
    pub fn call_at<'a>(&'a self, authorization: Option<&str>, secret: &str, now: i64) -> (decision:
        GuardDecision<'a, S>)
        ensures
            decision.outcome() == spec_guard(header_view(authorization), secret@, now as int),
            decision matches GuardDecision::Forward { service, .. } ==> *service == self.inner(),
    {
        match bearer_token(authorization) {
            Some(token) => match verify_jwt_at(token, secret, now) {
                Ok(claims) => GuardDecision::Forward { service: &self.service, claims },
                Err(_) => GuardDecision::Reject(HttpReply::text(UNAUTHORIZED, "Invalid token")),
            },
            None => GuardDecision::Reject(HttpReply::text(UNAUTHORIZED, "Missing token")),
        }
    }

    /// Decides whether a request with this `Authorization` header may reach
    /// the downstream service now. The time of the call is not known
    /// beforehand, so the contract says that some instant, not before the
    /// epoch, explains the decision.
    pub fn call<'a>(&'a self, authorization: Option<&str>, secret: &str) -> (decision: GuardDecision<
        'a,
        S,
    >)
        ensures
            exists|now: i64|
                now >= 0 && decision.outcome() == #[trigger] spec_guard(
                    header_view(authorization),
                    secret@,
                    now as int,
                ),
            decision matches GuardDecision::Forward { service, .. } ==> *service == self.inner(),
    {
        let now = current_timestamp();
        self.call_at(authorization, secret, now)
    }
}

/// The guard lets a request through exactly when its `Authorization` header
/// carries a bearer token that verifies, and then with the verified claims.
/// A request with no header, with another scheme, or with a token that is
/// expired or otherwise invalid is answered with status 401.
pub proof fn lemma_guard_forwards_only_verified(
    authorization: Option<Seq<char>>,
    secret: Seq<char>,
    now: int,
)
    ensures
        spec_guard(authorization, secret, now) is Forward <==> (spec_bearer_token(authorization)
            matches Some(token) && spec_verify_jwt(token, secret, now) is Ok),
        spec_guard(authorization, secret, now) matches GuardOutcome::Forward(claims) ==> Ok::<
            ClaimsView,
            TokenError,
        >(claims) == spec_verify_jwt(spec_bearer_token(authorization)->0, secret, now),
        spec_guard(authorization, secret, now) matches GuardOutcome::Reject(reply) ==> reply.status
            == 401,
        authorization is None ==> spec_guard(authorization, secret, now) is Reject,
        authorization matches Some(text) && !bearer_prefix().is_prefix_of(text) ==> spec_guard(
            authorization,
            secret,
            now,
        ) is Reject,
{
}

} // verus!
