use cookie::{Cookie, CookieJar};
use session_gateway::auth::{decide, AuthGate, Rejection};
use session_gateway::cookies::{attach_session, session_token, COOKIE_NAME, COOKIE_PATH};
use session_gateway::login::{login_as, login_handler, SESSION_LIFETIME};
use session_gateway::probe::{confirm, fetch_at, fetch_handler, identify, me_at, me_handler};
use session_gateway::response::{
    root_handler, Body, Response, STATUS_BAD_REQUEST, STATUS_INTERNAL_ERROR, STATUS_OK,
    STATUS_UNAUTHORIZED,
};
use session_gateway::token::{Claims, TokenCodec, TokenError};

const SECRET: &[u8] = b"my_super_secret_key";
const NOW: u64 = 1_700_000_000;

fn gate() -> AuthGate {
    AuthGate::new(SECRET.to_vec())
}

fn text(status: u16, body: &str) -> Response {
    Response {
        status,
        content_type: None,
        content_disposition: None,
        body: Body::Text(body.to_string()),
    }
}

fn jar_with_token(token: &str) -> CookieJar {
    let mut jar = CookieJar::new();
    jar.add_original(Cookie::new("authorization", token.to_string()));
    jar
}

fn token_for(secret: &[u8], sub: &str, exp: u64) -> String {
    TokenCodec::new(secret.to_vec()).issue(&Claims { sub: sub.to_string(), exp }).unwrap()
}

#[test]
fn status_codes_are_the_http_ones() {
    assert_eq!(STATUS_OK, 200);
    assert_eq!(STATUS_BAD_REQUEST, 400);
    assert_eq!(STATUS_UNAUTHORIZED, 401);
    assert_eq!(STATUS_INTERNAL_ERROR, 500);
}

#[test]
fn text_response_has_no_headers() {
    assert_eq!(Response::text(418, "teapot".to_string()), text(418, "teapot"));
}

#[test]
fn root_is_open_and_fixed() {
    assert_eq!(root_handler(), text(200, "jwt test"));
}

#[test]
fn session_cookie_is_named_authorization_on_the_root_path() {
    assert_eq!(COOKIE_NAME, "authorization");
    assert_eq!(COOKIE_PATH, "/");
    assert_eq!(SESSION_LIFETIME, 60 * 60);
}

#[test]
fn empty_jar_carries_no_token() {
    assert_eq!(session_token(&CookieJar::new()), None);
}

#[test]
fn other_cookies_are_not_the_session() {
    let mut jar = CookieJar::new();
    jar.add_original(Cookie::new("Authorization", "upper"));
    jar.add_original(Cookie::new("authorization2", "longer"));
    jar.add_original(Cookie::new("session", "other"));
    assert_eq!(session_token(&jar), None);
}

#[test]
fn session_token_is_the_raw_cookie_value() {
    assert_eq!(session_token(&jar_with_token("abc.def.ghi")), Some("abc.def.ghi".to_string()));
    assert_eq!(session_token(&jar_with_token("")), Some(String::new()));
    assert_eq!(session_token(&jar_with_token("\"quoted\"")), Some("\"quoted\"".to_string()));
}

#[test]
fn removed_session_cookie_is_absent() {
    let mut jar = jar_with_token("abc");
    jar.remove(Cookie::from("authorization"));
    assert_eq!(session_token(&jar), None);
}

#[test]
fn attach_session_sets_name_value_and_attributes() {
    let mut jar = CookieJar::new();
    attach_session(&mut jar, "tok");
    let cookie = jar.get("authorization").unwrap();
    assert_eq!(cookie.name(), "authorization");
    assert_eq!(cookie.value(), "tok");
    assert_eq!(cookie.http_only(), Some(true));
    assert_eq!(cookie.path(), Some("/"));
    assert_eq!(cookie.secure(), None);
    assert_eq!(cookie.same_site(), None);
    assert_eq!(cookie.domain(), None);
    assert_eq!(cookie.max_age(), None);
    assert_eq!(cookie.to_string(), "authorization=tok; HttpOnly; Path=/");
    assert_eq!(session_token(&jar), Some("tok".to_string()));
    assert_eq!(jar.delta().count(), 1);
}

#[test]
fn attach_session_replaces_the_session_and_keeps_the_rest() {
    let mut jar = jar_with_token("old");
    jar.add_original(Cookie::new("theme", "dark"));
    attach_session(&mut jar, "new");
    assert_eq!(session_token(&jar), Some("new".to_string()));
    assert_eq!(jar.get("theme").map(|c| c.value().to_string()), Some("dark".to_string()));
    assert_eq!(jar.iter().count(), 2);
    attach_session(&mut jar, "newer");
    assert_eq!(session_token(&jar), Some("newer".to_string()));
    assert_eq!(jar.iter().count(), 2);
}

#[test]
fn rejections_have_short_reasons_and_status_401() {
    assert_eq!(Rejection::NoSession.reason(), "No session cookie found");
    assert_eq!(Rejection::InvalidToken.reason(), "Invalid token");
    assert_eq!(Rejection::NoSession.reply(), text(401, "No session cookie found"));
    assert_eq!(Rejection::InvalidToken.reply(), text(401, "Invalid token"));
}

#[test]
fn decide_maps_each_session_to_its_outcome() {
    let claims = Claims { sub: "4821".to_string(), exp: 10 };
    assert_eq!(decide(None), Err(Rejection::NoSession));
    assert_eq!(decide(Some(Ok(claims))), Ok("4821".to_string()));
    assert_eq!(decide(Some(Err(TokenError::Invalid))), Err(Rejection::InvalidToken));
    assert_eq!(decide(Some(Err(TokenError::Expired))), Err(Rejection::InvalidToken));
    assert_eq!(decide(Some(Err(TokenError::Signing))), Err(Rejection::InvalidToken));
}

#[test]
fn authenticate_without_cookie_is_no_session() {
    assert_eq!(gate().authenticate(&CookieJar::new(), NOW), Err(Rejection::NoSession));
    assert_eq!(gate().authenticate(&CookieJar::new(), 0), Err(Rejection::NoSession));
}

#[test]
fn authenticate_yields_the_subject_of_a_valid_token() {
    let jar = jar_with_token(&token_for(SECRET, "4821", NOW + 10));
    assert_eq!(gate().authenticate(&jar, NOW), Ok("4821".to_string()));
    assert_eq!(gate().authenticate(&jar, NOW + 9), Ok("4821".to_string()));
}

#[test]
fn authenticate_rejects_expired_tokens() {
    let jar = jar_with_token(&token_for(SECRET, "4821", NOW));
    assert_eq!(gate().authenticate(&jar, NOW - 1), Ok("4821".to_string()));
    assert_eq!(gate().authenticate(&jar, NOW), Err(Rejection::InvalidToken));
    assert_eq!(gate().authenticate(&jar, NOW + 1), Err(Rejection::InvalidToken));
}

#[test]
fn authenticate_rejects_tokens_of_another_secret() {
    let jar = jar_with_token(&token_for(b"another_secret", "4821", NOW + 10));
    assert_eq!(gate().authenticate(&jar, NOW), Err(Rejection::InvalidToken));
    let expired = jar_with_token(&token_for(b"another_secret", "4821", NOW - 10));
    assert_eq!(gate().authenticate(&expired, NOW), Err(Rejection::InvalidToken));
}

#[test]
fn authenticate_rejects_garbage() {
    for value in ["", "garbage", "a.b.c", "Bearer abc"] {
        assert_eq!(
            gate().authenticate(&jar_with_token(value), NOW),
            Err(Rejection::InvalidToken)
        );
    }
}

#[test]
fn codec_of_the_gate_signs_with_its_secret() {
    let gate = gate();
    let token = gate.codec().issue(&Claims { sub: "7".to_string(), exp: NOW + 1 }).unwrap();
    assert_eq!(token, token_for(SECRET, "7", NOW + 1));
    assert_eq!(gate.authenticate(&jar_with_token(&token), NOW), Ok("7".to_string()));
}

#[test]
fn confirm_and_identify_answer_the_decision() {
    assert_eq!(confirm(Ok("4821".to_string())), text(200, "Hello, world!"));
    assert_eq!(confirm(Ok("1".to_string())), text(200, "Hello, world!"));
    assert_eq!(confirm(Err(Rejection::NoSession)), text(401, "No session cookie found"));
    assert_eq!(confirm(Err(Rejection::InvalidToken)), text(401, "Invalid token"));
    assert_eq!(identify(Ok("4821".to_string())), text(200, "4821"));
    assert_eq!(identify(Err(Rejection::NoSession)), text(401, "No session cookie found"));
    assert_eq!(identify(Err(Rejection::InvalidToken)), text(401, "Invalid token"));
}

#[test]
fn fetch_without_login_is_unauthorized() {
    assert_eq!(fetch_at(&gate(), &CookieJar::new(), NOW), text(401, "No session cookie found"));
    assert_eq!(fetch_handler(&gate(), &CookieJar::new()), text(401, "No session cookie found"));
    assert_eq!(me_at(&gate(), &CookieJar::new(), NOW), text(401, "No session cookie found"));
    assert_eq!(me_handler(&gate(), &CookieJar::new()), text(401, "No session cookie found"));
}

#[test]
fn fetch_with_an_invalid_token_is_unauthorized() {
    let jar = jar_with_token("garbage");
    assert_eq!(fetch_at(&gate(), &jar, NOW), text(401, "Invalid token"));
    assert_eq!(fetch_handler(&gate(), &jar), text(401, "Invalid token"));
    assert_eq!(me_at(&gate(), &jar, NOW), text(401, "Invalid token"));
    assert_eq!(me_handler(&gate(), &jar), text(401, "Invalid token"));
}

#[test]
fn login_as_attaches_the_cookie_and_answers_with_the_identity() {
    let gate = gate();
    let mut jar = CookieJar::new();
    let reply = login_as(&gate, &mut jar, "4821".to_string(), NOW);
    assert_eq!(reply, text(200, "4821"));
    let cookie = jar.get("authorization").unwrap();
    assert_eq!(cookie.value(), token_for(SECRET, "4821", NOW + 3600));
    assert_eq!(cookie.http_only(), Some(true));
    assert_eq!(cookie.path(), Some("/"));
    assert_eq!(jar.delta().count(), 1);
}

#[test]
fn login_session_lasts_sixty_minutes() {
    let gate = gate();
    let mut jar = CookieJar::new();
    login_as(&gate, &mut jar, "4821".to_string(), NOW);
    assert_eq!(gate.authenticate(&jar, NOW), Ok("4821".to_string()));
    assert_eq!(gate.authenticate(&jar, NOW + 3599), Ok("4821".to_string()));
    assert_eq!(gate.authenticate(&jar, NOW + 3600), Err(Rejection::InvalidToken));
    assert_eq!(fetch_at(&gate, &jar, NOW + 3599), text(200, "Hello, world!"));
    assert_eq!(fetch_at(&gate, &jar, NOW + 3600), text(401, "Invalid token"));
    assert_eq!(me_at(&gate, &jar, NOW + 3599), text(200, "4821"));
    assert_eq!(me_at(&gate, &jar, NOW + 3600), text(401, "Invalid token"));
}

#[test]
fn login_at_the_last_second_that_leaves_room() {
    let gate = gate();
    let mut jar = CookieJar::new();
    let now = u64::MAX - 3600;
    assert_eq!(login_as(&gate, &mut jar, "1".to_string(), now), text(200, "1"));
    assert_eq!(gate.authenticate(&jar, u64::MAX - 1), Ok("1".to_string()));
    assert_eq!(gate.authenticate(&jar, u64::MAX), Err(Rejection::InvalidToken));
}

#[test]
fn a_new_login_overwrites_the_session() {
    let gate = gate();
    let mut jar = CookieJar::new();
    login_as(&gate, &mut jar, "1".to_string(), NOW);
    login_as(&gate, &mut jar, "2".to_string(), NOW);
    assert_eq!(gate.authenticate(&jar, NOW), Ok("2".to_string()));
    assert_eq!(jar.iter().count(), 1);
}

#[test]
fn login_handler_mints_an_identity_and_opens_a_session() {
    let gate = gate();
    let mut jar = CookieJar::new();
    let reply = login_handler(&gate, &mut jar);
    assert_eq!(reply.status, 200);
    let identity = match reply.body {
        Body::Text(t) => t,
        Body::Bytes(_) => panic!("login answers with text"),
    };
    let n: u32 = identity.parse().unwrap();
    assert!((1..=10000).contains(&n));
    assert_eq!(identity, n.to_string());
    assert_eq!(jar.get("authorization").unwrap().http_only(), Some(true));
    assert_eq!(jar.get("authorization").unwrap().path(), Some("/"));
    assert_eq!(fetch_handler(&gate, &jar), text(200, "Hello, world!"));
    assert_eq!(me_handler(&gate, &jar), text(200, &identity));
}

#[test]
fn login_handler_needs_no_session_and_ignores_a_bad_one() {
    let gate = gate();
    let mut jar = jar_with_token("garbage");
    assert_eq!(login_handler(&gate, &mut jar).status, 200);
    assert_eq!(fetch_handler(&gate, &jar).status, 200);
}

#[test]
fn session_of_one_gate_is_refused_by_a_gate_with_another_secret() {
    let mut jar = CookieJar::new();
    login_as(&gate(), &mut jar, "4821".to_string(), NOW);
    let other = AuthGate::new(b"another_secret".to_vec());
    assert_eq!(fetch_at(&other, &jar, NOW), text(401, "Invalid token"));
}

#[test]
fn fetch_rejects_a_valid_looking_token_of_another_secret() {
    let gate = gate();
    let now = session_gateway::clock::current_time();
    let jar = jar_with_token(&token_for(b"another_secret", "4821", now + 3600));
    // under its own secret the token would be valid
    let theirs = AuthGate::new(b"another_secret".to_vec());
    assert_eq!(theirs.authenticate(&jar, now), Ok("4821".to_string()));
    for reply in [
        fetch_at(&gate, &jar, now),
        fetch_handler(&gate, &jar),
        me_at(&gate, &jar, now),
        me_handler(&gate, &jar),
    ] {
        assert_eq!(reply, text(401, "Invalid token"));
        match reply.body {
            Body::Text(t) => assert!(!t.contains("4821")),
            Body::Bytes(_) => panic!("a rejection carries text"),
        }
    }
    assert_eq!(gate.authenticate(&jar, now), Err(Rejection::InvalidToken));
}

#[test]
fn session_that_outlasts_the_clock_is_let_in_now() {
    let gate = gate();
    for exp in [i64::MAX as u64 + 1, u64::MAX] {
        let jar = jar_with_token(&token_for(SECRET, "4821", exp));
        assert_eq!(fetch_handler(&gate, &jar), text(200, "Hello, world!"));
        assert_eq!(me_handler(&gate, &jar), text(200, "4821"));
        assert_eq!(fetch_at(&gate, &jar, i64::MAX as u64), text(200, "Hello, world!"));
    }
}

#[test]
fn handlers_judge_the_session_by_the_current_time() {
    let gate = gate();
    let now = session_gateway::clock::current_time();
    let fresh = jar_with_token(&token_for(SECRET, "4821", now + 3600));
    assert_eq!(fetch_handler(&gate, &fresh), text(200, "Hello, world!"));
    assert_eq!(me_handler(&gate, &fresh), text(200, "4821"));
    let stale = jar_with_token(&token_for(SECRET, "4821", now - 10));
    assert_eq!(fetch_handler(&gate, &stale), text(401, "Invalid token"));
    assert_eq!(me_handler(&gate, &stale), text(401, "Invalid token"));
}

#[test]
fn login_handler_always_answers_200() {
    let gate = AuthGate::new(Vec::new());
    for _ in 0..50 {
        let mut jar = CookieJar::new();
        assert_eq!(login_handler(&gate, &mut jar).status, 200);
        assert!(jar.get("authorization").is_some());
    }
}
