//! Session claims and the codec that turns them into signed tokens and back.
//!
//! Signing, the token's wire format and the signature check are the work of
//! the `jsonwebtoken` crate. This module decides what a decoded token is worth
//! at a given time.

use vstd::prelude::*;

verus! {

/// What a session token states: who the session belongs to, and the second
/// (counted from the Unix epoch) from which it is no longer valid.
#[derive(Debug, PartialEq, Eq)]
pub struct Claims {
    pub sub: String,
    pub exp: u64,
}

/// The mathematical value of [`Claims`].
pub struct ClaimsView {
    pub sub: Seq<char>,
    pub exp: u64,
}

impl View for Claims {
    type V = ClaimsView;

    open spec fn view(&self) -> ClaimsView {
        ClaimsView { sub: self.sub@, exp: self.exp }
    }
}

/// The two claims of a token whose signature was accepted, each as far as the
/// token holds it in the expected type.
#[derive(Debug, PartialEq, Eq)]
pub struct RawClaims {
    pub sub: Option<String>,
    pub exp: Option<u64>,
}

impl View for RawClaims {
    type V = (Option<Seq<char>>, Option<u64>);

    open spec fn view(&self) -> (Option<Seq<char>>, Option<u64>) {
        (
            match self.sub {
                Some(s) => Some(s@),
                None => None,
            },
            self.exp,
        )
    }
}

/// Why the codec refused.
#[derive(Debug, Clone, Copy, PartialEq, Eq)]
pub enum TokenError {
    /// The token is malformed, its signature does not verify under the
    /// codec's secret, or it lacks a claim.
    Invalid,
    /// The token is genuine, but its expiry has been reached.
    Expired,
    /// No token could be produced for the claims.
    Signing,
}

#[verifier::external_type_specification]
#[verifier::external_body]
pub struct ExJwtError(jsonwebtoken::errors::Error);

/// The token that `jsonwebtoken::encode` produces for the claims `sub` and
/// `exp` under the HMAC secret `secret`, or `None` where it fails.
pub uninterp spec fn jwt_encoded(secret: Seq<u8>, sub: Seq<char>, exp: u64) -> Option<Seq<char>>;

/// What `jsonwebtoken::decode` finds in `token` under the HMAC secret
/// `secret`, with every check but that of the expiry: `None` where it refuses
/// the token, else the claims `sub` (if a string) and `exp` (if an unsigned
/// integer).
pub uninterp spec fn jwt_decoded(secret: Seq<u8>, token: Seq<char>) -> Option<
    (Option<Seq<char>>, Option<u64>),
>;

/// Calls `jsonwebtoken::encode` with the default header (HS256), the claims
/// object `{"sub": sub, "exp": exp}` and `secret` as the HMAC key.
///
/// Trusted: the call succeeds, since with an HMAC key, the default header
/// and such claims `encode` has no way to fail; the outcome is a function of
/// the three arguments; and the token is one that `jsonwebtoken::decode`
/// accepts under the same secret and in which it finds these two claims
/// again.
#[verifier::external_body]
fn jwt_encode(secret: &[u8], sub: &str, exp: u64) -> (r: Result<
    String,
    jsonwebtoken::errors::Error,
>)
    ensures
        r is Ok,
        match r {
            Ok(t) => jwt_encoded(secret@, sub@, exp) == Some(t@) && jwt_decoded(secret@, t@)
                == Some((Some(sub@), Some(exp))),
            Err(_) => jwt_encoded(secret@, sub@, exp) is None,
        },
{
    let mut claims = serde_json::Map::new();
    claims.insert("sub".to_owned(), serde_json::Value::from(sub));
    claims.insert("exp".to_owned(), serde_json::Value::from(exp));
    let key = jsonwebtoken::EncodingKey::from_secret(secret);
    jsonwebtoken::encode(&jsonwebtoken::Header::default(), &claims, &key)
}

/// Calls `jsonwebtoken::decode` with `secret` as the HMAC key and the default
/// validation (HS256, `exp` required) with the expiry check switched off, and
/// picks the claims `sub` and `exp` out of the decoded object.
///
/// Trusted: the outcome is a function of the two arguments.
#[verifier::external_body]
fn jwt_decode(secret: &[u8], token: &str) -> (r: Result<RawClaims, jsonwebtoken::errors::Error>)
    ensures
        match r {
            Ok(c) => jwt_decoded(secret@, token@) == Some(c@),
            Err(_) => jwt_decoded(secret@, token@) is None,
        },
{
    let mut validation = jsonwebtoken::Validation::default();
    validation.validate_exp = false;
    let key = jsonwebtoken::DecodingKey::from_secret(secret);
    match jsonwebtoken::decode::<serde_json::Value>(token, &key, &validation) {
        Ok(data) => Ok(RawClaims {
            sub: data.claims.get("sub").and_then(|v| v.as_str()).map(|s| s.to_owned()),
            exp: data.claims.get("exp").and_then(|v| v.as_u64()),
        }),
        Err(e) => Err(e),
    }
}

/// What decoded claims are worth at the second `now`: a token that was refused
/// or lacks a claim is invalid, and one whose expiry is not after `now` has
/// expired.
pub open spec fn claims_at(decoded: Option<(Option<Seq<char>>, Option<u64>)>, now: u64) -> Result<
    ClaimsView,
    TokenError,
> {
    match decoded {
        Some((Some(sub), Some(exp))) => if now < exp {
            Ok(ClaimsView { sub, exp })
        } else {
            Err(TokenError::Expired)
        },
        _ => Err(TokenError::Invalid),
    }
}

/// What `token` is worth under `secret` at the second `now`.
pub open spec fn verified(secret: Seq<u8>, token: Seq<char>, now: u64) -> Result<
    ClaimsView,
    TokenError,
> {
    claims_at(jwt_decoded(secret, token), now)
}

/// `token` is what a codec with `secret` issues for `claims`.
pub open spec fn issued(secret: Seq<u8>, claims: ClaimsView, token: Seq<char>) -> bool {
    &&& jwt_encoded(secret, claims.sub, claims.exp) == Some(token)
    &&& jwt_decoded(secret, token) == Some((Some(claims.sub), Some(claims.exp)))
}

/// The view of an optional [`RawClaims`].
pub open spec fn raw_view(decoded: Option<RawClaims>) -> Option<(Option<Seq<char>>, Option<u64>)> {
    match decoded {
        Some(c) => Some(c@),
        None => None,
    }
}

/// Judges decoded claims at the second `now`: both claims must be there, and
/// the expiry must lie after `now`.
pub fn check_claims(decoded: Option<RawClaims>, now: u64) -> (r: Result<Claims, TokenError>)
    ensures
        match r {
            Ok(c) => claims_at(raw_view(decoded), now) == Ok::<ClaimsView, TokenError>(c@),
            Err(e) => claims_at(raw_view(decoded), now) == Err::<ClaimsView, TokenError>(e),
        },
{
    match decoded {
        Some(RawClaims { sub: Some(sub), exp: Some(exp) }) => {
            if now < exp {
                Ok(Claims { sub, exp })
            } else {
                Err(TokenError::Expired)
            }
        },
        _ => Err(TokenError::Invalid),
    }
}

/// Issues and verifies session tokens under one secret, fixed when the codec
/// is made.
pub struct TokenCodec {
    secret: Vec<u8>,
}

impl TokenCodec {
    /// The secret that this codec signs and verifies with.
    pub closed spec fn secret(&self) -> Seq<u8> {
        self.secret@
    }

    /// A codec for `secret`.
    pub fn new(secret: Vec<u8>) -> (codec: TokenCodec)
        ensures
            codec.secret() == secret@,
    {
        TokenCodec { secret }
    }

    /// Signs `claims` into a token, which it does for all claims. The token
    /// verifies under this codec at every second before `claims.exp`, and
    /// yields `claims` again.
    pub fn issue(&self, claims: &Claims) -> (r: Result<String, TokenError>)
        ensures
            r matches Ok(t) && issued(self.secret(), claims@, t@),
            r matches Ok(t) ==> forall|now: u64|
                now < claims.exp ==> #[trigger] verified(self.secret(), t@, now) == Ok::<
                    ClaimsView,
                    TokenError,
                >(claims@),
    {
        match jwt_encode(self.secret.as_slice(), claims.sub.as_str(), claims.exp) {
            Ok(token) => Ok(token),
            // `encode` does not fail on these arguments; the arm is here for
            // the type.
            Err(_) => Err(TokenError::Signing),
        }
    }

    /// Verifies `token` at the second `now`: the signature and the shape are
    /// checked under this codec's secret, then the expiry against `now`.
    pub fn verify(&self, token: &str, now: u64) -> (r: Result<Claims, TokenError>)
        ensures
            match r {
                Ok(c) => verified(self.secret(), token@, now) == Ok::<ClaimsView, TokenError>(c@),
                Err(e) => verified(self.secret(), token@, now) == Err::<ClaimsView, TokenError>(e),
            },
    {
        let decoded = match jwt_decode(self.secret.as_slice(), token) {
            Ok(raw) => Some(raw),
            Err(_) => None,
        };
        check_claims(decoded, now)
    }
}

} // verus!
