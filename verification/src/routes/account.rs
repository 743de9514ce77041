//! Checks on accounts shared by the sign-in and token routes, and the
//! tokens issued when they pass.
use vstd::prelude::*;

use crate::error::{answers, forbidden, unauthorized, AppError, ErrorKind, Verdict};
use crate::hash::{gentoken, hashtoken, is_hex_of_bytes, spec_verifypw, token_digest, verifypw};
use crate::jwt::{claims_match, new_uuid, sign_claims, Claims};
use crate::models::User;

verus! {

/// Lifetime of a refresh token, in seconds (30 days).
pub const REFRESH_TTL: i64 = 2_592_000;

/// An account may be used unless it is banned or its email is unverified.
pub open spec fn account_verdict(u: User) -> Verdict {
    if u.banned {
        Verdict::Refuse(ErrorKind::Forbidden, "account banned"@)
    } else if !u.verified {
        Verdict::Refuse(ErrorKind::Forbidden, "email not verified"@)
    } else {
        Verdict::Pass
    }
}

/// A password is accepted when it verifies against the stored hash;
/// `wrong` is the refusal otherwise.
pub open spec fn password_verdict(password: Seq<char>, hash: Seq<char>, wrong: Verdict) -> Verdict {
    match spec_verifypw(password, hash) {
        None => Verdict::Broken,
        Some(true) => Verdict::Pass,
        Some(false) => wrong,
    }
}

/// Sign-in with an email and password: the account must exist, be usable,
/// and accept the password. A missing account and a wrong password are
/// refused alike.
pub open spec fn login_verdict(user: Option<&User>, password: Seq<char>) -> Verdict {
    let wrong = Verdict::Refuse(ErrorKind::Unauthorized, "invalid credentials"@);
    match user {
        None => wrong,
        Some(u) => match account_verdict(*u) {
            Verdict::Pass => password_verdict(password, u.passhash@, wrong),
            v => v,
        },
    }
}

/// A token grant needs an account that exists and is not banned.
pub open spec fn token_user_verdict(user: Option<&User>) -> Verdict {
    match user {
        None => Verdict::Refuse(ErrorKind::Unauthorized, "user not found"@),
        Some(u) => if u.banned {
            Verdict::Refuse(ErrorKind::Forbidden, "account banned"@)
        } else {
            Verdict::Pass
        },
    }
}

/// Refuses a banned or unverified account.
pub fn check_account(u: &User) -> (r: Result<(), AppError>)
    ensures
        answers(r, account_verdict(*u)),
{
    if u.banned {
        return Err(forbidden("account banned"));
    }
    if !u.verified {
        return Err(forbidden("email not verified"));
    }
    Ok(())
}

/// Checks an email/password sign-in against the account found for it.
pub fn check_login(user: Option<&User>, password: &str) -> (r: Result<(), AppError>)
    ensures
        answers(r, login_verdict(user, password@)),
{
    let u = match user {
        Some(u) => u,
        None => {
            return Err(unauthorized("invalid credentials"));
        },
    };
    check_account(u)?;
    if !verifypw(password, u.passhash.as_str())? {
        return Err(unauthorized("invalid credentials"));
    }
    Ok(())
}

/// Checks the account a token is about to be issued for.
pub fn check_token_user(user: Option<&User>) -> (r: Result<(), AppError>)
    ensures
        answers(r, token_user_verdict(user)),
{
    match user {
        None => Err(unauthorized("user not found")),
        Some(u) => if u.banned {
            Err(forbidden("account banned"))
        } else {
            Ok(())
        },
    }
}

/// The tokens handed out on sign-in: a signed access token's claims and id,
/// a new refresh token, the hash it is stored under, and when it expires.
pub struct TokenGrant {
    pub claims: Claims,
    pub jti: u128,
    pub refresh: String,
    pub refreshhash: String,
    pub expiresat: i64,
}

/// `t` is a time the clock may read, in seconds since the Unix epoch.
pub open spec fn clock_reading(t: i64) -> bool {
    -10_000_000_000_000 <= t <= 10_000_000_000_000
}

/// `g` grants `user` fresh tokens at `now`: claims for the user issued at
/// `now` and carrying `g.jti`, a random 32-byte hex refresh token stored
/// under its digest, expiring [`REFRESH_TTL`] seconds after `now`.
pub open spec fn grants(g: TokenGrant, user: User, now: i64) -> bool {
    &&& claims_match(g.claims, user, now, g.jti)
    &&& is_hex_of_bytes(g.refresh@, 32)
    &&& g.refreshhash@ == token_digest(g.refresh@)
    &&& g.expiresat == now + REFRESH_TTL
}

/// Issues an access token's claims, with a new random token id, and a
/// refresh token for `user`, at the time `now` (seconds since the epoch).
pub fn grant_tokens(user: &User, now: i64) -> (g: TokenGrant)
    requires
        now <= i64::MAX - REFRESH_TTL,
    ensures
        grants(g, *user, now),
{
    let jti = new_uuid();
    let claims = sign_claims(user, now, jti);
    let refresh = gentoken();
    let refreshhash = hashtoken(refresh.as_str());
    TokenGrant { claims, jti, refresh, refreshhash, expiresat: now + REFRESH_TTL }
}

} // verus!
