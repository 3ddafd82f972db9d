//! The two cheap protected resources: a probe that confirms the session with
//! a fixed text, and the lookup of the identity that the session belongs to.

use crate::auth::{
    auth_outcome, outlasts_the_clock, rejection_reply, AuthGate, Rejection,
};
use crate::clock::current_time;
use crate::cookies::{carried_token, jar_cookies, CookieView};
use crate::response::{text_reply, Response, ResponseView, STATUS_OK, STATUS_UNAUTHORIZED};
use vstd::prelude::*;

verus! {

/// The text that confirms a session.
pub open spec fn confirmation_text() -> Seq<char> {
    "Hello, world!"@
}

/// The probe's reply to what the auth gate decided: the confirmation, the
/// same for every identity, or the rejection.
pub open spec fn probe_reply(auth: Result<Seq<char>, Rejection>) -> ResponseView {
    match auth {
        Ok(_) => text_reply(STATUS_OK, confirmation_text()),
        Err(rejection) => rejection_reply(rejection),
    }
}

/// The lookup's reply to what the auth gate decided: the identity, or the
/// rejection.
pub open spec fn identity_reply(auth: Result<Seq<char>, Rejection>) -> ResponseView {
    match auth {
        Ok(identity) => text_reply(STATUS_OK, identity),
        Err(rejection) => rejection_reply(rejection),
    }
}

/// The probe's reply to the cookies `cookies` at the second `now`.
pub open spec fn fetch_reply(
    secret: Seq<u8>,
    cookies: Map<Seq<char>, CookieView>,
    now: u64,
) -> ResponseView {
    probe_reply(auth_outcome(secret, cookies, now))
}

/// The lookup's reply to the cookies `cookies` at the second `now`.
pub open spec fn me_reply(
    secret: Seq<u8>,
    cookies: Map<Seq<char>, CookieView>,
    now: u64,
) -> ResponseView {
    identity_reply(auth_outcome(secret, cookies, now))
}

/// The view of what the auth gate decided.
pub open spec fn auth_view(auth: Result<String, Rejection>) -> Result<Seq<char>, Rejection> {
    match auth {
        Ok(identity) => Ok(identity@),
        Err(rejection) => Err(rejection),
    }
}

/// Answers the probe for a request on which the auth gate has decided.
pub fn confirm(auth: Result<String, Rejection>) -> (r: Response)
    ensures
        r@ == probe_reply(auth_view(auth)),
{
    match auth {
        Ok(_) => Response::text(STATUS_OK, String::from_str("Hello, world!")),
        Err(rejection) => rejection.reply(),
    }
}

/// Answers the lookup for a request on which the auth gate has decided.
pub fn identify(auth: Result<String, Rejection>) -> (r: Response)
    ensures
        r@ == identity_reply(auth_view(auth)),
{
    match auth {
        Ok(identity) => Response::text(STATUS_OK, identity),
        Err(rejection) => rejection.reply(),
    }
}

/// The probe at the second `now`: 200 and the confirmation for a request
/// with a valid session, 401 and the reason for any other.
pub fn fetch_at(gate: &AuthGate, jar: &cookie::CookieJar, now: u64) -> (r: Response)
    ensures
        r@ == fetch_reply(gate.secret(), jar_cookies(*jar), now),
{
    confirm(gate.authenticate(jar, now))
}

/// The probe, now. Without a session cookie the reply is 401 whatever the
/// clock says; with one, it is what [`fetch_at`] gives at some second that
/// a clock can read.
pub fn fetch_handler(gate: &AuthGate, jar: &cookie::CookieJar) -> (r: Response)
    ensures
        exists|now: u64|
            now <= i64::MAX && r@ == #[trigger] fetch_reply(
                gate.secret(),
                jar_cookies(*jar),
                now,
            ),
        carried_token(jar_cookies(*jar)) is None ==> r@ == rejection_reply(Rejection::NoSession),
        outlasts_the_clock(gate.secret(), jar_cookies(*jar)) ==> r.status == STATUS_OK,
        r.status == STATUS_OK || r.status == STATUS_UNAUTHORIZED,
{
    let now: u64 = current_time();
    fetch_at(gate, jar, now)
}

/// The lookup at the second `now`: 200 and the identity for a request with a
/// valid session, 401 and the reason for any other.
pub fn me_at(gate: &AuthGate, jar: &cookie::CookieJar, now: u64) -> (r: Response)
    ensures
        r@ == me_reply(gate.secret(), jar_cookies(*jar), now),
{
    identify(gate.authenticate(jar, now))
}

/// The lookup, now: what [`me_at`] gives at some second that a clock can
/// read.
pub fn me_handler(gate: &AuthGate, jar: &cookie::CookieJar) -> (r: Response)
    ensures
        exists|now: u64|
            now <= i64::MAX && r@ == #[trigger] me_reply(gate.secret(), jar_cookies(*jar), now),
        carried_token(jar_cookies(*jar)) is None ==> r@ == rejection_reply(Rejection::NoSession),
        outlasts_the_clock(gate.secret(), jar_cookies(*jar)) ==> r.status == STATUS_OK,
        r.status == STATUS_OK || r.status == STATUS_UNAUTHORIZED,
{
    let now: u64 = current_time();
    me_at(gate, jar, now)
}

} // verus!
