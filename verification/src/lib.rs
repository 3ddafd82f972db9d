//! A session gateway: signed, time-limited session tokens carried in a cookie,
//! and the handlers of the resources that such a session protects.
//!
//! Every handler works on plain values and on a [`cookie::CookieJar`]; the
//! server around this library reads requests, performs the I/O that a handler
//! asks for, and writes the replies.

pub mod auth;
pub mod clock;
pub mod cookies;
pub mod download;
pub mod identity;
pub mod laws;
pub mod login;
pub mod probe;
pub mod random;
pub mod response;
pub mod token;
pub mod upload;
