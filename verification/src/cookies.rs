//! The cookie plans under which the two session tokens travel.
//!
//! Both cookies are http-only, secure and strict-site. The access cookie
//! expires with the access token's own lifetime; the refresh cookie persists
//! for the refresh lifetime only when the caller asked to be remembered, and
//! both are cleared (immediate expiry) on logout. How a plan becomes a
//! transport header is an outside concern.

use vstd::prelude::*;

verus! {

use crate::token::{ACCESS_TOKEN_LIFETIME_SECS, REFRESH_TOKEN_LIFETIME_SECS};

/// A cookie to set: name, value and attributes, with `max_age_seconds` absent
/// for a session-scoped cookie.
#[derive(Debug)]
pub struct CookiePlan {
    pub name: String,
    pub value: String,
    pub http_only: bool,
    pub secure: bool,
    pub same_site_strict: bool,
    pub path: String,
    pub max_age_seconds: Option<i64>,
}

impl CookiePlan {
    /// Hardened as every auth cookie must be: http-only, secure, strict-site,
    /// valid for the whole site.
    pub open spec fn hardened(&self) -> bool {
        &&& self.http_only
        &&& self.secure
        &&& self.same_site_strict
        &&& self.path@ == "/"@
    }
}

/// The two cookies set on a successful auth event: the access cookie expiring
/// with its token's lifetime, the refresh cookie persistent exactly when
/// `remember_me` was asked.
pub fn create_auth_cookies(access_token: String, refresh_token: String, remember_me: bool) -> (r:
    Vec<CookiePlan>)
    ensures
        r@.len() == 2,
        r@[0].hardened() && r@[1].hardened(),
        r@[0].name@ == "access_token"@,
        r@[0].value == access_token,
        r@[0].max_age_seconds == Some(ACCESS_TOKEN_LIFETIME_SECS as i64),
        r@[1].name@ == "refresh_token"@,
        r@[1].value == refresh_token,
        remember_me ==> r@[1].max_age_seconds == Some(REFRESH_TOKEN_LIFETIME_SECS as i64),
        !remember_me ==> r@[1].max_age_seconds is None,
{
    let mut cookies: Vec<CookiePlan> = Vec::new();
    cookies.push(
        CookiePlan {
            name: String::from_str("access_token"),
            value: access_token,
            http_only: true,
            secure: true,
            same_site_strict: true,
            path: String::from_str("/"),
            max_age_seconds: Some(ACCESS_TOKEN_LIFETIME_SECS as i64),
        },
    );
    let max_age: Option<i64> = if remember_me {
        Some(REFRESH_TOKEN_LIFETIME_SECS as i64)
    } else {
        None
    };
    cookies.push(
        CookiePlan {
            name: String::from_str("refresh_token"),
            value: refresh_token,
            http_only: true,
            secure: true,
            same_site_strict: true,
            path: String::from_str("/"),
            max_age_seconds: max_age,
        },
    );
    cookies
}

/// The two cookies set on logout: both cleared by an immediate expiry.
pub fn remove_auth_cookies() -> (r: Vec<CookiePlan>)
    ensures
        r@.len() == 2,
        r@[0].hardened() && r@[1].hardened(),
        r@[0].name@ == "access_token"@,
        r@[1].name@ == "refresh_token"@,
        r@[0].value@.len() == 0,
        r@[1].value@.len() == 0,
        r@[0].max_age_seconds == Some(0i64),
        r@[1].max_age_seconds == Some(0i64),
{
    let mut cookies: Vec<CookiePlan> = Vec::new();
    cookies.push(
        CookiePlan {
            name: String::from_str("access_token"),
            value: String::new(),
            http_only: true,
            secure: true,
            same_site_strict: true,
            path: String::from_str("/"),
            max_age_seconds: Some(0),
        },
    );
    cookies.push(
        CookiePlan {
            name: String::from_str("refresh_token"),
            value: String::new(),
            http_only: true,
            secure: true,
            same_site_strict: true,
            path: String::from_str("/"),
            max_age_seconds: Some(0),
        },
    );
    cookies
}

} // verus!
