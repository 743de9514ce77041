//! The client's `/auth` routes: sending the browser to the server's
//! authorize endpoint with PKCE, taking the code back at the callback, and
//! signing out.
use vstd::prelude::*;
use vstd::utf8::encode_utf8;

use crate::auth::config::OcasConfig;
use crate::auth::cookies::{clearcookie, cookie, cookie_lookup, cookie_prefix, cookie_text, getcookie};
use crate::auth::refresh::{refreshed_cookies, ACCESS_COOKIE_AGE, REFRESH_COOKIE_AGE};
use crate::codec::{b64_standard, b64_standard_encode, b64_url, b64_url_encode, hex_encode, hex_lower};
use crate::hash::{pkcechallenge, random_bytes, s256_challenge};
use crate::routes::token::basic_header;
use crate::text::{concat2, str_eq};

verus! {

/// `t` is URL-safe base64 of `n` bytes.
pub open spec fn is_b64url_of_bytes(t: Seq<char>, n: nat) -> bool {
    exists|b: Seq<u8>| b.len() == n && t == b64_url(b)
}

/// A PKCE verifier: 32 random bytes in URL-safe base64.
pub fn genverifier() -> (r: String)
    ensures
        is_b64url_of_bytes(r@, 32),
{
    let bytes: [u8; 32] = random_bytes();
    let r = b64_url_encode(&bytes);
    assert(bytes@.len() == 32);
    r
}

/// A login state: 16 random bytes in lowercase hex.
pub fn genstate() -> (r: String)
    ensures
        exists|b: Seq<u8>| b.len() == 16 && r@ == hex_lower(b),
{
    let bytes: [u8; 16] = random_bytes();
    let r = hex_encode(&bytes);
    assert(bytes@.len() == 16);
    r
}

/// The server's authorize URL for a login with `state` and PKCE `challenge`.
pub open spec fn authorize_url_for(c: OcasConfig, state: Seq<char>, challenge: Seq<char>) -> Seq<char> {
    c.url@ + "/authorize?client_id="@ + c.clientid@ + "&redirect_uri="@ + c.callbackurl@
        + "&state="@ + state + "&code_challenge="@ + challenge
        + "&code_challenge_method=S256&response_type=code"@
}

/// Builds the server's authorize URL.
pub fn authorize_url(c: &OcasConfig, state: &str, challenge: &str) -> (r: String)
    ensures
        r@ == authorize_url_for(*c, state@, challenge@),
{
    let mut s = c.url.clone();
    s.append("/authorize?client_id=");
    s.append(c.clientid.as_str());
    s.append("&redirect_uri=");
    s.append(c.callbackurl.as_str());
    s.append("&state=");
    s.append(state);
    s.append("&code_challenge=");
    s.append(challenge);
    s.append("&code_challenge_method=S256&response_type=code");
    s
}

/// What the callback makes of the request's cookies and its `state`
/// parameter: the saved verifier, or the reason to refuse.
pub open spec fn callback_check(cookies: Seq<char>, state: Seq<char>) -> Result<Seq<char>, Seq<char>> {
    match cookie_lookup(cookies, "ocas_state="@) {
        None => Err("missing state cookie"@),
        Some(saved) => if saved != state {
            Err("state mismatch"@)
        } else {
            match cookie_lookup(cookies, "ocas_verifier="@) {
                None => Err("missing verifier cookie"@),
                Some(v) => Ok(v),
            }
        },
    }
}

/// Checks the callback's state against the saved one and returns the saved
/// PKCE verifier.
pub fn check_callback(cookies: &str, state: &str) -> (r: Result<String, String>)
    ensures
        (match callback_check(cookies@, state@) {
            Ok(v) => r matches Ok(x) && x@ == v,
            Err(m) => r matches Err(x) && x@ == m,
        }),
{
    proof {
        reveal_strlit("ocas_state");
        reveal_strlit("ocas_state=");
        reveal_strlit("ocas_verifier");
        reveal_strlit("ocas_verifier=");
    }
    assert(cookie_prefix("ocas_state"@) =~= "ocas_state="@);
    assert(cookie_prefix("ocas_verifier"@) =~= "ocas_verifier="@);
    let saved = match getcookie(cookies, "ocas_state") {
        Some(s) => s,
        None => {
            return Err("missing state cookie".to_owned());
        },
    };
    if !str_eq(saved.as_str(), state) {
        return Err("state mismatch".to_owned());
    }
    match getcookie(cookies, "ocas_verifier") {
        Some(v) => Ok(v),
        None => Err("missing verifier cookie".to_owned()),
    }
}

/// Builds the client's Basic `Authorization` header value.
pub fn basic_authorization(clientid: &str, secret: &str) -> (r: String)
    ensures
        r@ == basic_header(clientid@, secret@),
{
    let mut pair = clientid.to_owned();
    pair.append(":");
    pair.append(secret);
    proof {
        reveal_strlit(":");
    }
    assert(pair@ =~= clientid@ + seq![':'] + secret@);
    let encoded = b64_standard_encode(pair.as_str().as_bytes());
    concat2("Basic ", encoded.as_str())
}

/// The form of the code exchange.
pub open spec fn token_form(code: Seq<char>, callbackurl: Seq<char>, verifier: Seq<char>) -> Seq<char> {
    "grant_type=authorization_code&code="@ + code + "&redirect_uri="@ + callbackurl
        + "&code_verifier="@ + verifier
}

/// Builds the form of the code exchange.
pub fn token_request_body(code: &str, callbackurl: &str, verifier: &str) -> (r: String)
    ensures
        r@ == token_form(code@, callbackurl@, verifier@),
{
    let mut s = "grant_type=authorization_code&code=".to_owned();
    s.append(code);
    s.append("&redirect_uri=");
    s.append(callbackurl);
    s.append("&code_verifier=");
    s.append(verifier);
    s
}

/// The JSON body sending a refresh token: `{"refresh":"<token>"}`, the
/// token written as it is.
pub open spec fn refresh_json(token: Seq<char>) -> Seq<char> {
    "{\"refresh\":\""@ + token + "\"}"@
}

/// Builds the JSON body sending a refresh token to refresh or revoke it.
pub fn refresh_request_body(token: &str) -> (r: String)
    ensures
        r@ == refresh_json(token@),
{
    let mut s = "{\"refresh\":\"".to_owned();
    s.append(token);
    s.append("\"}");
    s
}

/// The server's endpoint `path` (such as `/token`).
pub fn endpoint(c: &OcasConfig, path: &str) -> (r: String)
    ensures
        r@ == c.url@ + path@,
{
    concat2(c.url.as_str(), path)
}

/// The cookies set when the callback signs the user in: the access token
/// (15 minutes), the refresh token (30 days), and the state and verifier
/// cookies of the sign-in cleared.
pub fn signin_cookies(access: &str, refresh: &str) -> (r: Vec<String>)
    ensures
        r@.len() == 4,
        r@[0]@ == cookie_text("ocas_access"@, access@, ACCESS_COOKIE_AGE as int),
        r@[1]@ == cookie_text("ocas_refresh"@, refresh@, REFRESH_COOKIE_AGE as int),
        r@[2]@ == cookie_text("ocas_state"@, Seq::empty(), 0),
        r@[3]@ == cookie_text("ocas_verifier"@, Seq::empty(), 0),
{
    let (a, f) = refreshed_cookies(access, refresh);
    let mut v: Vec<String> = Vec::new();
    v.push(a);
    v.push(f);
    v.push(clearcookie("ocas_state"));
    v.push(clearcookie("ocas_verifier"));
    v
}

/// The cookies set on signing out: the access and refresh cookies cleared.
pub fn signout_cookies() -> (r: Vec<String>)
    ensures
        r@.len() == 2,
        r@[0]@ == cookie_text("ocas_access"@, Seq::empty(), 0),
        r@[1]@ == cookie_text("ocas_refresh"@, Seq::empty(), 0),
{
    let mut v: Vec<String> = Vec::new();
    v.push(clearcookie("ocas_access"));
    v.push(clearcookie("ocas_refresh"));
    v
}

/// How long the sign-in's verifier and state cookies live, in seconds.
pub const SIGNIN_COOKIE_AGE: i64 = 600;

/// The cookies set when a sign-in starts: the PKCE verifier and the state,
/// for 10 minutes.
pub fn pending_signin_cookies(verifier: &str, state: &str) -> (r: Vec<String>)
    ensures
        r@.len() == 2,
        r@[0]@ == cookie_text("ocas_verifier"@, verifier@, SIGNIN_COOKIE_AGE as int),
        r@[1]@ == cookie_text("ocas_state"@, state@, SIGNIN_COOKIE_AGE as int),
{
    let mut v: Vec<String> = Vec::new();
    v.push(cookie("ocas_verifier", verifier, SIGNIN_COOKIE_AGE));
    v.push(cookie("ocas_state", state, SIGNIN_COOKIE_AGE));
    v
}

/// Where `/auth/login` sends the browser, and the cookies it sets, for a
/// sign-in with PKCE verifier `verifier` and state `state`: the server's
/// authorize URL carrying the verifier's S256 challenge, then the verifier
/// and state cookies.
pub fn login_redirect(config: &OcasConfig, verifier: &str, state: &str) -> (r: (String, Vec<String>))
    ensures
        r.0@ == authorize_url_for(*config, state@, s256_challenge(verifier@)),
        r.1@.len() == 2,
        r.1@[0]@ == cookie_text("ocas_verifier"@, verifier@, SIGNIN_COOKIE_AGE as int),
        r.1@[1]@ == cookie_text("ocas_state"@, state@, SIGNIN_COOKIE_AGE as int),
{
    let challenge = pkcechallenge(verifier);
    let url = authorize_url(config, state, challenge.as_str());
    (url, pending_signin_cookies(verifier, state))
}

} // verus!
