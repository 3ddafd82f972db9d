//! The auth gate in front of every protected resource: it finds the session
//! cookie, has the token verified, and lets the identity through or rejects
//! the request.

use crate::cookies::{carried_token, jar_cookies, session_token, CookieView};
use crate::response::{text_reply, Response, ResponseView, STATUS_UNAUTHORIZED};
use crate::token::{jwt_decoded, verified, Claims, ClaimsView, TokenCodec, TokenError};
use vstd::prelude::*;

verus! {

/// Why the auth gate turned a request away.
#[derive(Debug, Clone, Copy, PartialEq, Eq)]
pub enum Rejection {
    /// The request carries no session cookie.
    NoSession,
    /// The session cookie's token did not verify: malformed, signed with
    /// another secret, or expired.
    InvalidToken,
}

/// The reason that a rejected request is told.
pub open spec fn reason_text(rejection: Rejection) -> Seq<char> {
    match rejection {
        Rejection::NoSession => "No session cookie found"@,
        Rejection::InvalidToken => "Invalid token"@,
    }
}

/// The reply to a rejected request: unauthorized, whatever the reason.
pub open spec fn rejection_reply(rejection: Rejection) -> ResponseView {
    text_reply(STATUS_UNAUTHORIZED, reason_text(rejection))
}

impl Rejection {
    /// A short text that names the reason.
    pub fn reason(&self) -> (text: String)
        ensures
            text@ == reason_text(*self),
    {
        match self {
            Rejection::NoSession => String::from_str("No session cookie found"),
            Rejection::InvalidToken => String::from_str("Invalid token"),
        }
    }

    /// The reply that turns the request away.
    pub fn reply(&self) -> (r: Response)
        ensures
            r@ == rejection_reply(*self),
            r.status == STATUS_UNAUTHORIZED,
    {
        Response::text(STATUS_UNAUTHORIZED, self.reason())
    }
}

/// What the auth gate makes of a session: `None` stands for a request
/// without a session cookie, `Some` holds what the codec found of the
/// cookie's token.
pub open spec fn decision(session: Option<Result<ClaimsView, TokenError>>) -> Result<
    Seq<char>,
    Rejection,
> {
    match session {
        None => Err(Rejection::NoSession),
        Some(Ok(claims)) => Ok(claims.sub),
        Some(Err(_)) => Err(Rejection::InvalidToken),
    }
}

/// What the auth gate makes of the cookies `cookies` at the second `now`, with
/// tokens verified under `secret`.
pub open spec fn auth_outcome(
    secret: Seq<u8>,
    cookies: Map<Seq<char>, CookieView>,
    now: u64,
) -> Result<Seq<char>, Rejection> {
    decision(
        match carried_token(cookies) {
            Some(token) => Some(verified(secret, token, now)),
            None => None,
        },
    )
}

/// The session in `cookies` outlasts the clock: its token is accepted under
/// `secret`, holds both claims, and expires after the last second that a
/// clock can read. Such a session is valid whatever the time.
pub open spec fn outlasts_the_clock(secret: Seq<u8>, cookies: Map<Seq<char>, CookieView>) -> bool {
    &&& carried_token(cookies) matches Some(token)
    &&& jwt_decoded(secret, token) matches Some((Some(_), Some(exp)))
    &&& exp > i64::MAX
}

/// The view of what the codec found, if a token was there.
pub open spec fn session_view(session: Option<Result<Claims, TokenError>>) -> Option<
    Result<ClaimsView, TokenError>,
> {
    match session {
        None => None,
        Some(Ok(claims)) => Some(Ok(claims@)),
        Some(Err(e)) => Some(Err(e)),
    }
}

/// Decides on a session: the subject of verified claims is let through, a
/// token that failed for any reason is an invalid token, and no token at all
/// is no session.
pub fn decide(session: Option<Result<Claims, TokenError>>) -> (r: Result<String, Rejection>)
    ensures
        match r {
            Ok(id) => decision(session_view(session)) == Ok::<Seq<char>, Rejection>(id@),
            Err(e) => decision(session_view(session)) == Err::<Seq<char>, Rejection>(e),
        },
{
    match session {
        None => Err(Rejection::NoSession),
        Some(Ok(claims)) => Ok(claims.sub),
        Some(Err(_)) => Err(Rejection::InvalidToken),
    }
}

/// The auth gate. It holds the codec, and with it the secret, from the start.
pub struct AuthGate {
    codec: TokenCodec,
}

impl AuthGate {
    /// The secret under which this gate has tokens verified.
    pub closed spec fn secret(&self) -> Seq<u8> {
        self.codec.secret()
    }

    /// A gate whose tokens are signed and verified with `secret`.
    pub fn new(secret: Vec<u8>) -> (gate: AuthGate)
        ensures
            gate.secret() == secret@,
    {
        AuthGate { codec: TokenCodec::new(secret) }
    }

    /// The codec that signs and verifies this gate's tokens.
    pub fn codec(&self) -> (codec: &TokenCodec)
        ensures
            codec.secret() == self.secret(),
    {
        &self.codec
    }

    /// Authenticates the request whose cookies are in `jar` at the second
    /// `now`. Without a session cookie the request is rejected as
    /// [`Rejection::NoSession`]; with one whose token does not verify at
    /// `now`, as [`Rejection::InvalidToken`]; else the token's subject is the
    /// identity.
    pub fn authenticate(&self, jar: &cookie::CookieJar, now: u64) -> (r: Result<String, Rejection>)
        ensures
            match r {
                Ok(id) => auth_outcome(self.secret(), jar_cookies(*jar), now) == Ok::<
                    Seq<char>,
                    Rejection,
                >(id@),
                Err(e) => auth_outcome(self.secret(), jar_cookies(*jar), now) == Err::<
                    Seq<char>,
                    Rejection,
                >(e),
            },
    {
        let session = match session_token(jar) {
            Some(token) => Some(self.codec.verify(token.as_str(), now)),
            None => None,
        };
        decide(session)
    }
}

} // verus!
