//! Access-token claims and the published key set (JWKS) of the server.
//!
//! The claims are serialized and signed with RS256 where they are sent; the
//! library decides what they say.
use vstd::prelude::*;

use chrono::Utc;
use rsa::pkcs8::DecodePublicKey;
use rsa::traits::PublicKeyParts;
use rsa::RsaPublicKey;
use uuid::Uuid;

use crate::codec::{b64_url, b64_url_encode};
use crate::models::User;
use crate::text::owned;

verus! {

/// Lifetime of an access token, in seconds (15 minutes).
pub const ACCESS_TTL: i64 = 900;

/// The claims of an access token.
pub struct Claims {
    pub sub: u128,
    pub rollnum: Option<String>,
    pub email: String,
    pub batch: Option<i32>,
    pub branch: Option<String>,
    /// `student` or `faculty`.
    pub usertype: String,
    pub exp: i64,
    pub iat: i64,
    pub jti: u128,
}

/// The view of an optional string.
pub open spec fn opt_view(o: Option<String>) -> Option<Seq<char>> {
    match o {
        Some(s) => Some(s@),
        None => None,
    }
}

/// A copy of an optional string.
pub fn clone_opt(o: &Option<String>) -> (r: Option<String>)
    ensures
        opt_view(r) == opt_view(*o),
{
    match o {
        Some(s) => Some(s.clone()),
        None => None,
    }
}

/// The claims of `user` issued at `now` under the token id `jti`: the
/// user's identity and facts, valid for [`ACCESS_TTL`] seconds.
pub open spec fn claims_match(c: Claims, user: User, now: i64, jti: u128) -> bool {
    &&& c.sub == user.id
    &&& opt_view(c.rollnum) == opt_view(user.rollnum)
    &&& c.email@ == user.email@
    &&& c.batch == user.batch
    &&& opt_view(c.branch) == opt_view(user.branch)
    &&& c.usertype@ == user.usertype@
    &&& c.exp == now + ACCESS_TTL
    &&& c.iat == now
    &&& c.jti == jti
}

/// The claims of an access token for `user` issued at `now` with id `jti`.
pub fn sign_claims(user: &User, now: i64, jti: u128) -> (c: Claims)
    requires
        now <= i64::MAX - ACCESS_TTL,
    ensures
        claims_match(c, *user, now, jti),
{
    Claims {
        sub: user.id,
        rollnum: clone_opt(&user.rollnum),
        email: user.email.clone(),
        batch: user.batch,
        branch: clone_opt(&user.branch),
        usertype: user.usertype.clone(),
        exp: now + ACCESS_TTL,
        iat: now,
        jti,
    }
}

/// `Utc::now().timestamp()`: the current time in seconds since the Unix
/// epoch, within the range of years that `chrono` represents.
#[verifier::external_body]
pub(crate) fn unix_now() -> (r: i64)
    ensures
        -10_000_000_000_000 <= r <= 10_000_000_000_000,
{
    Utc::now().timestamp()
}

/// `Uuid::new_v4()` as its 128-bit value: random, with the version nibble
/// set to 4 and the variant bits to `10`.
#[verifier::external_body]
pub(crate) fn new_uuid() -> (r: u128)
    ensures
        r & 0x0000_0000_0000_F000_C000_0000_0000_0000 == 0x0000_0000_0000_4000_8000_0000_0000_0000,
{
    Uuid::new_v4().as_u128()
}

/// Fresh claims for `user`: issued now, with a new random token id. Returns
/// the claims and the token id.
pub fn new_access_claims(user: &User) -> (r: (Claims, u128))
    ensures
        exists|now: i64| claims_match(r.0, *user, now, r.1),
{
    let now = unix_now();
    let jti = new_uuid();
    let c = sign_claims(user, now, jti);
    let r = (c, jti);
    assert(claims_match(r.0, *user, now, r.1));
    r
}

/// `RsaPublicKey::from_public_key_pem` accepts `pem`.
pub uninterp spec fn rsa_public_pem_valid(pem: Seq<char>) -> bool;

/// The big-endian bytes of the modulus of the key in `pem` (`n()`).
pub uninterp spec fn rsa_pem_modulus(pem: Seq<char>) -> Seq<u8>;

/// The big-endian bytes of the public exponent of the key in `pem` (`e()`).
pub uninterp spec fn rsa_pem_exponent(pem: Seq<char>) -> Seq<u8>;

/// Modulus and exponent bytes of a public key.
pub type KeyParts = Option<(Vec<u8>, Vec<u8>)>;

/// `RsaPublicKey::from_public_key_pem`, then the big-endian bytes of `n()`
/// and `e()` of the key.
#[verifier::external_body]
fn rsa_public_components(pem: &str) -> (r: KeyParts)
    ensures
        r is Some <==> rsa_public_pem_valid(pem@),
        r matches Some(p) ==> p.0@ == rsa_pem_modulus(pem@) && p.1@ == rsa_pem_exponent(pem@),
{
    let key = RsaPublicKey::from_public_key_pem(pem).ok()?;
    Some((key.n().to_bytes_be(), key.e().to_bytes_be()))
}

/// One published key.
pub struct Jwk {
    pub kty: String,
    /// Serialized as `use`.
    pub usage: String,
    pub alg: String,
    pub kid: String,
    pub n: String,
    pub e: String,
}

/// The published key set.
pub struct JwksResponse {
    pub keys: Vec<Jwk>,
}

/// The key set publishing the key in `pem`: one RSA signing key for RS256
/// with id `ocas-1`, its modulus and exponent in URL-safe base64.
pub open spec fn jwks_for(r: JwksResponse, pem: Seq<char>) -> bool {
    &&& r.keys@.len() == 1
    &&& r.keys@[0].kty@ == "RSA"@
    &&& r.keys@[0].usage@ == "sig"@
    &&& r.keys@[0].alg@ == "RS256"@
    &&& r.keys@[0].kid@ == "ocas-1"@
    &&& r.keys@[0].n@ == b64_url(rsa_pem_modulus(pem))
    &&& r.keys@[0].e@ == b64_url(rsa_pem_exponent(pem))
}

/// Builds the JWKS response from the PEM-encoded public key.
pub fn jwks(pem: &str) -> (r: JwksResponse)
    requires
        rsa_public_pem_valid(pem@),
    ensures
        jwks_for(r, pem@),
{
    let (nb, eb) = match rsa_public_components(pem) {
        Some(p) => p,
        None => {
            assert(false);
            (Vec::new(), Vec::new())
        },
    };
    let n = b64_url_encode(nb.as_slice());
    let e = b64_url_encode(eb.as_slice());
    let mut keys: Vec<Jwk> = Vec::new();
    keys.push(
        Jwk {
            kty: owned("RSA"),
            usage: owned("sig"),
            alg: owned("RS256"),
            kid: owned("ocas-1"),
            n,
            e,
        },
    );
    JwksResponse { keys }
}

/// The JWKS response for `pem`, or `None` when `pem` holds no public key.
pub fn jwks_checked(pem: &str) -> (r: Option<JwksResponse>)
    ensures
        r is Some <==> rsa_public_pem_valid(pem@),
        r matches Some(j) ==> jwks_for(j, pem@),
{
    match rsa_public_components(pem) {
        Some(_) => Some(jwks(pem)),
        None => None,
    }
}

} // verus!
