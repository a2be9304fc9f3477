use token_auth::handlers::reply::{HttpReply, ReplyBody};
use token_auth::middleware::jwt_auth::{AuthMiddleware, AuthMiddlewareMiddleware, GuardDecision};
use token_auth::utils::jwt::create_jwt_at;

const KEY: &str = "unit-test-signing-key";
const NOW: i64 = 1_000;

fn guard() -> AuthMiddlewareMiddleware<&'static str> {
    AuthMiddleware.new_transform("downstream")
}

fn bearer(token: &str) -> String {
    format!("Bearer {token}")
}

fn rejected(decision: GuardDecision<'_, &'static str>) -> HttpReply {
    match decision {
        GuardDecision::Reject(reply) => reply,
        GuardDecision::Forward { claims, .. } => panic!("forwarded with {claims:?}"),
    }
}

fn text_reply(status: u16, message: &str) -> HttpReply {
    HttpReply { status, body: ReplyBody::Text(message.to_string()) }
}

#[test]
fn guard_rejects_a_request_without_authorization_header() {
    assert_eq!(rejected(guard().call_at(None, KEY, NOW)), text_reply(401, "Missing token"));
}

#[test]
fn guard_rejects_a_scheme_other_than_bearer() {
    let token = create_jwt_at("alice@x.com", 15, "access", KEY, NOW).unwrap();
    for header in [
        format!("Basic {token}"),
        format!("bearer {token}"),
        format!("BEARER {token}"),
        format!("Bearer{token}"),
        format!(" Bearer {token}"),
        token.clone(),
        String::new(),
    ] {
        let reply = rejected(guard().call_at(Some(&header), KEY, NOW));
        assert_eq!(reply, text_reply(401, "Missing token"), "{header:?}");
    }
}

#[test]
fn guard_rejects_an_expired_token() {
    let token = create_jwt_at("alice@x.com", 15, "access", KEY, NOW).unwrap();
    let header = bearer(&token);
    assert_eq!(rejected(guard().call_at(Some(&header), KEY, 1_900)), text_reply(401, "Invalid token"));
    let dead = create_jwt_at("alice@x.com", 0, "access", KEY, NOW).unwrap();
    let header = bearer(&dead);
    assert_eq!(rejected(guard().call_at(Some(&header), KEY, NOW)), text_reply(401, "Invalid token"));
}

#[test]
fn guard_rejects_an_invalid_token_with_the_same_message() {
    let token = create_jwt_at("alice@x.com", 15, "access", KEY, NOW).unwrap();
    let forged = create_jwt_at("alice@x.com", 15, "access", "another-key", NOW).unwrap();
    let mut cut = token.clone();
    cut.pop();
    for header in [bearer(&forged), bearer(&cut), bearer("garbage"), bearer(""), bearer(&bearer(&token))] {
        let reply = rejected(guard().call_at(Some(&header), KEY, NOW));
        assert_eq!(reply, text_reply(401, "Invalid token"), "{header:?}");
    }
}

#[test]
fn guard_forwards_a_valid_token_with_its_claims() {
    let token = create_jwt_at("alice@x.com", 15, "access", KEY, NOW).unwrap();
    let header = bearer(&token);
    let guard = guard();
    match guard.call_at(Some(&header), KEY, NOW) {
        GuardDecision::Forward { service, claims } => {
            assert_eq!(*service, "downstream");
            assert_eq!(claims.sub, "alice@x.com");
            assert_eq!(claims.exp, 1_900);
            assert_eq!(claims.token_type, "access");
        },
        GuardDecision::Reject(reply) => panic!("rejected with {reply:?}"),
    }
}

#[test]
fn guard_accepts_a_refresh_token_as_bearer_credential() {
    let token = create_jwt_at("alice@x.com", 10_080, "refresh", KEY, NOW).unwrap();
    let header = bearer(&token);
    let guard = guard();
    match guard.call_at(Some(&header), KEY, NOW) {
        GuardDecision::Forward { service, claims } => {
            assert_eq!(*service, "downstream");
            assert_eq!(claims.sub, "alice@x.com");
            assert_eq!(claims.token_type, "refresh");
        },
        GuardDecision::Reject(reply) => panic!("rejected with {reply:?}"),
    }
}

#[test]
fn guard_hands_out_the_service_it_was_given() {
    let inner = vec![1u8, 2, 3];
    let guard = AuthMiddleware.new_transform(inner.clone());
    let token = create_jwt_at("bob@x.com", 15, "access", KEY, NOW).unwrap();
    let header = bearer(&token);
    match guard.call_at(Some(&header), KEY, NOW) {
        GuardDecision::Forward { service, .. } => assert_eq!(service, &inner),
        GuardDecision::Reject(reply) => panic!("rejected with {reply:?}"),
    }
}

#[test]
fn guard_judges_against_the_present() {
    let guard = guard();
    let live = create_jwt_at("alice@x.com", 15, "access", KEY, i64::MAX / 120).unwrap();
    let header = bearer(&live);
    match guard.call(Some(&header), KEY) {
        GuardDecision::Forward { claims, .. } => assert_eq!(claims.sub, "alice@x.com"),
        GuardDecision::Reject(reply) => panic!("rejected with {reply:?}"),
    }
    let dead = create_jwt_at("alice@x.com", 15, "access", KEY, NOW).unwrap();
    let header = bearer(&dead);
    assert_eq!(rejected(guard.call(Some(&header), KEY)), text_reply(401, "Invalid token"));
    assert_eq!(rejected(guard.call(None, KEY)), text_reply(401, "Missing token"));
}
