//! The middleware that silently renews an expired access token from the
//! refresh-token cookie.
use vstd::prelude::*;

use crate::auth::cookies::{cookie, cookie_lookup, cookie_prefix, cookie_text, extractcookie, has_cookie};

verus! {

/// Seconds an access-token cookie lasts (15 minutes).
pub const ACCESS_COOKIE_AGE: i64 = 900;

/// Seconds a refresh-token cookie lasts (30 days).
pub const REFRESH_COOKIE_AGE: i64 = 2_592_000;

/// The refresh token to renew with: none when the request still has an
/// access cookie or the client is not installed; else the `ocas_refresh`
/// cookie, if any.
pub open spec fn refresh_token_to_use(cookies: Seq<char>, has_client: bool) -> Option<Seq<char>> {
    if cookie_lookup(cookies, "ocas_access="@) is Some || !has_client {
        None
    } else {
        cookie_lookup(cookies, "ocas_refresh="@)
    }
}

/// Decides whether to renew, and with which refresh token.
pub fn refresh_plan(cookies: &str, has_client: bool) -> (r: Option<String>)
    ensures
        (match refresh_token_to_use(cookies@, has_client) {
            Some(t) => r matches Some(x) && x@ == t,
            None => r is None,
        }),
{
    proof {
        reveal_strlit("ocas_access");
        reveal_strlit("ocas_access=");
        reveal_strlit("ocas_refresh");
        reveal_strlit("ocas_refresh=");
    }
    assert(cookie_prefix("ocas_access"@) =~= "ocas_access="@);
    assert(cookie_prefix("ocas_refresh"@) =~= "ocas_refresh="@);
    if has_cookie(cookies, "ocas_access") || !has_client {
        return None;
    }
    extractcookie(cookies, "ocas_refresh")
}

/// The two `Set-Cookie` values installing renewed tokens.
pub fn refreshed_cookies(access: &str, refresh: &str) -> (r: (String, String))
    ensures
        r.0@ == cookie_text("ocas_access"@, access@, ACCESS_COOKIE_AGE as int),
        r.1@ == cookie_text("ocas_refresh"@, refresh@, REFRESH_COOKIE_AGE as int),
{
    (cookie("ocas_access", access, ACCESS_COOKIE_AGE), cookie("ocas_refresh", refresh, REFRESH_COOKIE_AGE))
}

} // verus!
