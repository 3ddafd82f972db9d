//! The session cookie: how a token travels in a `cookie::CookieJar`.
//!
//! Nothing is judged here. A token is read from the jar by the session
//! cookie's name, and attached to it with the attributes that a session
//! cookie carries.

use vstd::prelude::*;

verus! {

#[verifier::external_type_specification]
#[verifier::external_body]
pub struct ExCookieJar(cookie::CookieJar);

/// What a jar holds of one cookie: its value, and the attributes `HttpOnly`
/// and `Path` as far as they are set.
pub struct CookieView {
    pub value: Seq<char>,
    pub http_only: Option<bool>,
    pub path: Option<Seq<char>>,
}

/// The cookies that `jar` hands out, by name.
pub uninterp spec fn jar_cookies(jar: cookie::CookieJar) -> Map<Seq<char>, CookieView>;

/// Calls `CookieJar::get` and hands out the value of the cookie found.
///
/// Trusted: a cookie is found if and only if the jar holds one of that name,
/// and the value is that cookie's.
#[verifier::external_body]
fn jar_value(jar: &cookie::CookieJar, name: &str) -> (r: Option<String>)
    ensures
        match r {
            Some(v) => jar_cookies(*jar).contains_key(name@) && jar_cookies(*jar)[name@].value
                == v@,
            None => !jar_cookies(*jar).contains_key(name@),
        },
{
    jar.get(name).map(|c| c.value().to_owned())
}

/// Builds a cookie with `Cookie::new`, `set_http_only` and `set_path`, and
/// calls `CookieJar::add` with it.
///
/// Trusted: afterwards the jar holds the new cookie under `name`, in place of
/// any earlier one of that name, and every other cookie as before.
#[verifier::external_body]
fn jar_add(jar: &mut cookie::CookieJar, name: &str, value: &str, http_only: bool, path: &str)
    ensures
        jar_cookies(*final(jar)) == jar_cookies(*old(jar)).insert(
            name@,
            CookieView { value: value@, http_only: Some(http_only), path: Some(path@) },
        ),
{
    let mut cookie = cookie::Cookie::new(name.to_owned(), value.to_owned());
    cookie.set_http_only(http_only);
    cookie.set_path(path.to_owned());
    jar.add(cookie);
}

/// The name of the session cookie.
pub const COOKIE_NAME: &'static str = "authorization";

/// The path that the session cookie is bound to.
pub const COOKIE_PATH: &'static str = "/";

/// The session cookie that carries `token`.
pub open spec fn session_cookie(token: Seq<char>) -> CookieView {
    CookieView { value: token, http_only: Some(true), path: Some(COOKIE_PATH@) }
}

/// The token that the cookies `cookies` carry, if any.
pub open spec fn carried_token(cookies: Map<Seq<char>, CookieView>) -> Option<Seq<char>> {
    if cookies.contains_key(COOKIE_NAME@) {
        Some(cookies[COOKIE_NAME@].value)
    } else {
        None
    }
}

/// The cookies after a session cookie with `token` was attached.
pub open spec fn with_session(cookies: Map<Seq<char>, CookieView>, token: Seq<char>) -> Map<
    Seq<char>,
    CookieView,
> {
    cookies.insert(COOKIE_NAME@, session_cookie(token))
}

/// The raw token of the session cookie in `jar`, or `None` where the jar
/// holds no cookie of that name.
pub fn session_token(jar: &cookie::CookieJar) -> (r: Option<String>)
    ensures
        match r {
            Some(t) => carried_token(jar_cookies(*jar)) == Some(t@),
            None => carried_token(jar_cookies(*jar)) is None,
        },
{
    jar_value(jar, COOKIE_NAME)
}

/// Attaches the session cookie with `token` to `jar`: named
/// [`COOKIE_NAME`], `HttpOnly`, bound to the root path. A session cookie
/// that the jar held before is replaced.
pub fn attach_session(jar: &mut cookie::CookieJar, token: &str)
    ensures
        jar_cookies(*final(jar)) == with_session(jar_cookies(*old(jar)), token@),
        carried_token(jar_cookies(*final(jar))) == Some(token@),
{
    jar_add(jar, COOKIE_NAME, token, true, COOKIE_PATH);
}

} // verus!
