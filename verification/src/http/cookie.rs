//! Cookies, as the values that go into a `Set-Cookie` header.

use vstd::prelude::*;

verus! {

/// How long a cookie lives, in seconds: one day.
pub const COOKIE_EXPIRATION: i64 = 86_400;

/// The `SameSite` attribute of a cookie.
#[derive(Debug, Clone, Copy, PartialEq, Eq, Structural)]
pub enum SameSite {
    Strict,
    Lax,
    /// `SameSite=None`: the cookie goes out with cross-site requests too.
    Unrestricted,
}

/// A cookie to set.
#[derive(Debug, Clone, PartialEq, Eq)]
pub struct Cookie {
    pub name: String,
    pub value: String,
    /// The `Max-Age` attribute, in seconds.
    pub max_age: i64,
    pub same_site: SameSite,
    pub http_only: bool,
    pub secure: bool,
}

/// Creates an HTTP only cookie that carries the CSRF token.
pub fn csrf(token: &str) -> (cookie: Cookie)
    ensures
        cookie.name@ == "x-csrf-token"@,
        cookie.value@ == token@,
        cookie.max_age == COOKIE_EXPIRATION,
        cookie.same_site == SameSite::Unrestricted,
        cookie.http_only,
        cookie.secure,
{
    Cookie {
        name: String::from_str("x-csrf-token"),
        value: String::from_str(token),
        max_age: COOKIE_EXPIRATION,
        same_site: SameSite::Unrestricted,
        http_only: true,
        secure: true,
    }
}

/// Creates a cookie that scripts can read, with the given key and a value
/// that is already serialised. `SameSite` is `Lax` where none is given.
pub fn create(key: &str, value: &str, same_site: Option<SameSite>) -> (cookie: Cookie)
    ensures
        cookie.name@ == key@,
        cookie.value@ == value@,
        cookie.max_age == COOKIE_EXPIRATION,
        same_site is Some ==> cookie.same_site == same_site->0,
        same_site is None ==> cookie.same_site == SameSite::Lax,
        !cookie.http_only,
        cookie.secure,
{
    let same_site = match same_site {
        Some(chosen) => chosen,
        None => SameSite::Lax,
    };
    Cookie {
        name: String::from_str(key),
        value: String::from_str(value),
        max_age: COOKIE_EXPIRATION,
        same_site,
        http_only: false,
        secure: true,
    }
}

} // verus!
