//! What holds of a session from login to expiry, across the codec, the auth
//! gate and the handlers.

use crate::auth::{auth_outcome, outlasts_the_clock, rejection_reply, Rejection};
use crate::cookies::{carried_token, CookieView, COOKIE_NAME};
use crate::download::{download_disposition, download_replies, download_type, DOWNLOAD_SIZE};
use crate::login::{login_outcome, SESSION_LIFETIME};
use crate::probe::{confirmation_text, fetch_reply, me_reply};
use crate::response::{text_reply, BodyView, ResponseView, STATUS_OK, STATUS_UNAUTHORIZED};
use crate::token::{issued, jwt_decoded, verified, ClaimsView, TokenError};
use crate::upload::{upload_begins, UploadActionView, UploadStateView};
use vstd::prelude::*;

verus! {

/// Round trip: a token that a codec issued for some claims verifies under
/// the same secret at every second before the claims' expiry, and yields
/// exactly those claims.
pub proof fn lemma_issued_token_round_trip(
    secret: Seq<u8>,
    claims: ClaimsView,
    token: Seq<char>,
    now: u64,
)
    requires
        issued(secret, claims, token),
        now < claims.exp,
    ensures
        verified(secret, token, now) == Ok::<ClaimsView, TokenError>(claims),
{
}

/// A token is accepted only if its signature and shape were accepted under
/// the verifying secret, and only before the expiry that it states.
pub proof fn lemma_accepted_token_is_signed_and_unexpired(
    secret: Seq<u8>,
    token: Seq<char>,
    now: u64,
    claims: ClaimsView,
)
    requires
        verified(secret, token, now) == Ok::<ClaimsView, TokenError>(claims),
    ensures
        jwt_decoded(secret, token) == Some((Some(claims.sub), Some(claims.exp))),
        now < claims.exp,
{
}

/// A token that the signature check under the auth gate's secret refuses is
/// rejected at every second, whatever it claims: every protected resource
/// answers 401 with the reason of an invalid token, no reply holds what the
/// token claims, and an upload ends before a field is asked for.
pub proof fn lemma_refused_token_is_rejected(
    secret: Seq<u8>,
    cookies: Map<Seq<char>, CookieView>,
    token: Seq<char>,
    now: u64,
)
    requires
        carried_token(cookies) == Some(token),
        jwt_decoded(secret, token) is None,
    ensures
        verified(secret, token, now) == Err::<ClaimsView, TokenError>(TokenError::Invalid),
        auth_outcome(secret, cookies, now) == Err::<Seq<char>, Rejection>(Rejection::InvalidToken),
        fetch_reply(secret, cookies, now) == rejection_reply(Rejection::InvalidToken),
        me_reply(secret, cookies, now) == rejection_reply(Rejection::InvalidToken),
        fetch_reply(secret, cookies, now).status == STATUS_UNAUTHORIZED,
        forall|r: ResponseView| #[trigger]
            download_replies(secret, cookies, now, r) ==> r == rejection_reply(
                Rejection::InvalidToken,
            ),
        forall|state: UploadStateView, action: UploadActionView| #[trigger]
            upload_begins(secret, cookies, now, state, action) ==> state == UploadStateView::Done
                && action == UploadActionView::Reply(rejection_reply(Rejection::InvalidToken)),
{
}

/// A session that outlasts the clock is always let in: a request whose token
/// was accepted under the auth gate's secret and expires after the last
/// second that a clock can read is answered 200 by the probe and the lookup
/// at every such second, is handed its download, and is asked for the first
/// field of its upload.
pub proof fn lemma_session_beyond_the_clock_is_let_in(
    secret: Seq<u8>,
    cookies: Map<Seq<char>, CookieView>,
    token: Seq<char>,
    identity: Seq<char>,
    exp: u64,
    now: u64,
)
    requires
        carried_token(cookies) == Some(token),
        jwt_decoded(secret, token) == Some((Some(identity), Some(exp))),
        exp > i64::MAX,
        now <= i64::MAX,
    ensures
        outlasts_the_clock(secret, cookies),
        auth_outcome(secret, cookies, now) == Ok::<Seq<char>, Rejection>(identity),
        fetch_reply(secret, cookies, now) == text_reply(STATUS_OK, confirmation_text()),
        me_reply(secret, cookies, now) == text_reply(STATUS_OK, identity),
        forall|r: ResponseView| #[trigger]
            download_replies(secret, cookies, now, r) ==> r.status == STATUS_OK,
        forall|state: UploadStateView, action: UploadActionView| #[trigger]
            upload_begins(secret, cookies, now, state, action) ==> state is AwaitingField
                && action == UploadActionView::NextField,
{
}

/// A token whose expiry is not after `now` is rejected by the auth gate,
/// whether its signature verifies or not: every protected resource answers
/// 401.
pub proof fn lemma_expired_token_is_rejected(
    secret: Seq<u8>,
    cookies: Map<Seq<char>, CookieView>,
    token: Seq<char>,
    now: u64,
)
    requires
        carried_token(cookies) == Some(token),
        jwt_decoded(secret, token) matches Some((_, Some(exp))) ==> exp <= now,
    ensures
        verified(secret, token, now) is Err,
        auth_outcome(secret, cookies, now) == Err::<Seq<char>, Rejection>(Rejection::InvalidToken),
        fetch_reply(secret, cookies, now) == rejection_reply(Rejection::InvalidToken),
        me_reply(secret, cookies, now) == rejection_reply(Rejection::InvalidToken),
        fetch_reply(secret, cookies, now).status == STATUS_UNAUTHORIZED,
        forall|r: ResponseView| #[trigger]
            download_replies(secret, cookies, now, r) ==> r.status == STATUS_UNAUTHORIZED,
        forall|state: UploadStateView, action: UploadActionView| #[trigger]
            upload_begins(secret, cookies, now, state, action) ==> state == UploadStateView::Done
                && action == UploadActionView::Reply(rejection_reply(Rejection::InvalidToken)),
{
}

/// A request without a session cookie, as one is that never logged in, is
/// answered 401 by every protected resource, at every second.
pub proof fn lemma_no_session_cookie_is_unauthorized(
    secret: Seq<u8>,
    cookies: Map<Seq<char>, CookieView>,
    now: u64,
)
    requires
        !cookies.contains_key(COOKIE_NAME@),
    ensures
        auth_outcome(secret, cookies, now) == Err::<Seq<char>, Rejection>(Rejection::NoSession),
        fetch_reply(secret, cookies, now) == rejection_reply(Rejection::NoSession),
        me_reply(secret, cookies, now) == rejection_reply(Rejection::NoSession),
        fetch_reply(secret, cookies, now).status == STATUS_UNAUTHORIZED,
        forall|r: ResponseView| #[trigger]
            download_replies(secret, cookies, now, r) ==> r.status == STATUS_UNAUTHORIZED,
        forall|state: UploadStateView, action: UploadActionView| #[trigger]
            upload_begins(secret, cookies, now, state, action) ==> state == UploadStateView::Done
                && action == UploadActionView::Reply(rejection_reply(Rejection::NoSession)),
{
}

/// After a login, a request that carries the login's session cookie is let
/// through at every second within the session's lifetime, as the identity
/// that the login answered with: the probe confirms with 200, and the lookup
/// answers 200 with that identity.
pub proof fn lemma_login_then_fetch(
    secret: Seq<u8>,
    before: Map<Seq<char>, CookieView>,
    identity: Seq<char>,
    now: u64,
    after: Map<Seq<char>, CookieView>,
    r: ResponseView,
    carried: Map<Seq<char>, CookieView>,
    later: u64,
)
    requires
        now + SESSION_LIFETIME <= u64::MAX,
        login_outcome(secret, before, identity, now, after, r),
        carried_token(carried) == carried_token(after),
        later < now + SESSION_LIFETIME,
    ensures
        r == text_reply(STATUS_OK, identity),
        auth_outcome(secret, carried, later) == Ok::<Seq<char>, Rejection>(identity),
        fetch_reply(secret, carried, later) == text_reply(STATUS_OK, confirmation_text()),
        me_reply(secret, carried, later) == text_reply(STATUS_OK, identity),
{
}

/// Every download that the auth gate lets through is an attachment of exactly
/// [`DOWNLOAD_SIZE`] bytes.
pub proof fn lemma_download_is_fixed_size_attachment(
    secret: Seq<u8>,
    cookies: Map<Seq<char>, CookieView>,
    now: u64,
    r: ResponseView,
)
    requires
        auth_outcome(secret, cookies, now) is Ok,
        download_replies(secret, cookies, now, r),
    ensures
        r.status == STATUS_OK,
        r.content_type == Some(download_type()),
        r.content_disposition == Some(download_disposition()),
        r.body matches BodyView::Bytes(payload) && payload.len() == DOWNLOAD_SIZE,
{
}

} // verus!
