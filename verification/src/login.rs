//! Login: a fresh identity, a token that states it for the next hour, and
//! the session cookie that carries the token.

use crate::auth::AuthGate;
use crate::clock::current_time;
use crate::cookies::{attach_session, jar_cookies, with_session, CookieView};
use crate::identity::{is_identity, mint_identity};
use crate::response::{text_reply, Response, ResponseView, STATUS_INTERNAL_ERROR, STATUS_OK};
use crate::token::{issued, jwt_encoded, Claims, ClaimsView};
use vstd::prelude::*;

verus! {

/// The seconds for which a session is valid: 60 minutes.
pub const SESSION_LIFETIME: u64 = 3600;

/// The claims of a session that `identity` begins at the second `now`.
pub open spec fn login_claims(identity: Seq<char>, now: u64) -> ClaimsView {
    ClaimsView { sub: identity, exp: (now + SESSION_LIFETIME) as u64 }
}

/// What a login of `identity` at the second `now` does to the cookies
/// `before`, and the reply it gives: the cookies get the session cookie with
/// the token issued for the login's claims, and the reply is 200 with the
/// identity as its text.
pub open spec fn login_outcome(
    secret: Seq<u8>,
    before: Map<Seq<char>, CookieView>,
    identity: Seq<char>,
    now: u64,
    after: Map<Seq<char>, CookieView>,
    r: ResponseView,
) -> bool {
    let claims = login_claims(identity, now);
    match jwt_encoded(secret, claims.sub, claims.exp) {
        Some(token) => {
            &&& issued(secret, claims, token)
            &&& after == with_session(before, token)
            &&& r == text_reply(STATUS_OK, identity)
        },
        None => false,
    }
}

/// Logs `identity` in at the second `now`: signs the claims that expire
/// [`SESSION_LIFETIME`] seconds later, attaches the session cookie to `jar`
/// and answers 200 with the identity. It does so for every identity and
/// every second that leaves room for the lifetime.
pub fn login_as(gate: &AuthGate, jar: &mut cookie::CookieJar, identity: String, now: u64) -> (r:
    Response)
    requires
        now + SESSION_LIFETIME <= u64::MAX,
    ensures
        login_outcome(
            gate.secret(),
            jar_cookies(*old(jar)),
            identity@,
            now,
            jar_cookies(*final(jar)),
            r@,
        ),
        r@ == text_reply(STATUS_OK, identity@),
{
    let claims = Claims { sub: identity, exp: now + SESSION_LIFETIME };
    match gate.codec().issue(&claims) {
        Ok(token) => {
            attach_session(jar, token.as_str());
            Response::text(STATUS_OK, claims.sub)
        },
        // The codec signs all claims; this arm is here for the type, and
        // sends no cookie.
        Err(_) => Response::text(
            STATUS_INTERNAL_ERROR,
            String::from_str("JWT token creation failed"),
        ),
    }
}

/// Logs a fresh identity in, now. The request needs no session, and the
/// reply is always 200. The outcome is one that [`login_as`] has for some
/// identity and at some second that a clock can read.
pub fn login_handler(gate: &AuthGate, jar: &mut cookie::CookieJar) -> (r: Response)
    ensures
        r.status == STATUS_OK,
        exists|identity: Seq<char>, now: u64|
            is_identity(identity) && now <= i64::MAX && #[trigger] login_outcome(
                gate.secret(),
                jar_cookies(*old(jar)),
                identity,
                now,
                jar_cookies(*final(jar)),
                r@,
            ),
{
    let identity = mint_identity();
    let now: u64 = current_time();
    login_as(gate, jar, identity, now)
}

} // verus!
