//! The bulk download: a payload of fixed size, made of fresh random bytes for
//! every request, handed out as an attachment.

use crate::auth::{
    auth_outcome, outlasts_the_clock, rejection_reply, AuthGate, Rejection,
};
use crate::clock::current_time;
use crate::cookies::{carried_token, jar_cookies, CookieView};
use crate::random::random_bytes;
use crate::response::{
    Body, BodyView, Response, ResponseView, STATUS_OK, STATUS_UNAUTHORIZED,
};
use vstd::prelude::*;

verus! {

/// The size of every download in bytes: 512 KiB.
pub const DOWNLOAD_SIZE: usize = 524288;

/// The content type of a download.
pub open spec fn download_type() -> Seq<char> {
    "application/octet-stream"@
}

/// The content disposition of a download: an attachment, with a file name.
pub open spec fn download_disposition() -> Seq<char> {
    "attachment; filename=\"random_data.bin\""@
}

/// The reply that hands out `payload` as an attachment.
pub open spec fn attachment_reply(payload: Seq<u8>) -> ResponseView {
    ResponseView {
        status: STATUS_OK,
        content_type: Some(download_type()),
        content_disposition: Some(download_disposition()),
        body: BodyView::Bytes(payload),
    }
}

/// `r` is a reply of the download to the cookies `cookies` at the second
/// `now`: the rejection where the auth gate rejects, else an attachment of
/// exactly [`DOWNLOAD_SIZE`] bytes.
pub open spec fn download_replies(
    secret: Seq<u8>,
    cookies: Map<Seq<char>, CookieView>,
    now: u64,
    r: ResponseView,
) -> bool {
    match auth_outcome(secret, cookies, now) {
        Err(rejection) => r == rejection_reply(rejection),
        Ok(_) => exists|payload: Seq<u8>|
            payload.len() == DOWNLOAD_SIZE && r == #[trigger] attachment_reply(payload),
    }
}

/// Wraps `payload` into the reply that hands it out as an attachment.
pub fn attachment(payload: Vec<u8>) -> (r: Response)
    ensures
        r@ == attachment_reply(payload@),
{
    Response {
        status: STATUS_OK,
        content_type: Some(String::from_str("application/octet-stream")),
        content_disposition: Some(String::from_str("attachment; filename=\"random_data.bin\"")),
        body: Body::Bytes(payload),
    }
}

/// The download at the second `now`. A request with a valid session gets
/// 200, the two headers of an attachment and [`DOWNLOAD_SIZE`] bytes that
/// were drawn for this request; any other gets 401 and the reason.
pub fn download_at(gate: &AuthGate, jar: &cookie::CookieJar, now: u64) -> (r: Response)
    ensures
        download_replies(gate.secret(), jar_cookies(*jar), now, r@),
{
    match gate.authenticate(jar, now) {
        Err(rejection) => rejection.reply(),
        Ok(_) => {
            let payload = random_bytes(DOWNLOAD_SIZE);
            attachment(payload)
        },
    }
}

/// The download, now: what [`download_at`] gives at some second that a
/// clock can read.
pub fn download_handler(gate: &AuthGate, jar: &cookie::CookieJar) -> (r: Response)
    ensures
        exists|now: u64|
            now <= i64::MAX && #[trigger] download_replies(
                gate.secret(),
                jar_cookies(*jar),
                now,
                r@,
            ),
        carried_token(jar_cookies(*jar)) is None ==> r@ == rejection_reply(Rejection::NoSession),
        outlasts_the_clock(gate.secret(), jar_cookies(*jar)) ==> r.status == STATUS_OK,
        r.status == STATUS_OK || r.status == STATUS_UNAUTHORIZED,
        r.status == STATUS_OK ==> (r.body matches Body::Bytes(payload) && payload@.len()
            == DOWNLOAD_SIZE),
{
    let now: u64 = current_time();
    download_at(gate, jar, now)
}

} // verus!
