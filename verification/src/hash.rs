//! Password hashing, opaque random tokens and the hashes under which tokens
//! are stored.
use vstd::prelude::*;
use vstd::utf8::encode_utf8;

use argon2::password_hash::rand_core::OsRng;
use argon2::password_hash::{PasswordHash, PasswordHasher, PasswordVerifier, SaltString};
use argon2::Argon2;
use rand::Rng;
use sha2::{Digest, Sha256};

use crate::codec::{b64_url, b64_url_encode, hex_encode, hex_lower};
use crate::error::{internal, AppError, ErrorKind};
use crate::text::has_prefix;

verus! {

/// The SHA-256 digest of `data`.
pub uninterp spec fn sha256(data: Seq<u8>) -> Seq<u8>;

/// `PasswordHash::new` accepts `hash` as a PHC string.
pub uninterp spec fn phc_parses(hash: Seq<char>) -> bool;

/// Argon2 (default configuration) accepts `password` against the parsed
/// PHC string `hash`.
pub uninterp spec fn argon2_accepts(password: Seq<char>, hash: Seq<char>) -> bool;

/// A hashed string, or the hasher's error message.
pub type TextResult = Result<String, String>;

/// A yes/no answer, or the error message of what could not be checked.
pub type CheckResult = Result<bool, String>;

/// `Sha256::digest`: the 32-byte SHA-256 digest.
#[verifier::external_body]
pub(crate) fn sha256_digest(data: &[u8]) -> (r: Vec<u8>)
    ensures
        r@ == sha256(data@),
        r@.len() == 32,
{
    Sha256::digest(data).to_vec()
}

/// `Rng::fill` of `rand::thread_rng()`: `N` random bytes.
#[verifier::external_body]
pub(crate) fn random_bytes<const N: usize>() -> (r: [u8; N]) {
    let mut out = [0u8; N];
    rand::thread_rng().fill(&mut out[..]);
    out
}

/// A fresh salt from `SaltString::generate` (16 bytes of the operating
/// system's random source), then `Argon2::default().hash_password`,
/// rendered as a PHC string. The salt is random, so the string is not
/// named; what holds of every outcome is that the default algorithm,
/// Argon2id, heads the string, that the string parses and Argon2 accepts
/// the same password against it, and that with the default parameters and
/// such a salt the only error is a password of more than `0xFFFF_FFFF`
/// bytes (`Error::PwdTooLong`).
#[verifier::external_body]
fn argon2_hash(password: &str) -> (r: TextResult)
    ensures
        r matches Ok(h) ==> has_prefix(h@, "$argon2id$"@) && phc_parses(h@) && argon2_accepts(
            password@,
            h@,
        ),
        encode_utf8(password@).len() <= 0xFFFF_FFFF ==> r is Ok,
{
    let salt = SaltString::generate(&mut OsRng);
    Argon2::default()
        .hash_password(password.as_bytes(), &salt)
        .map(|h| h.to_string())
        .map_err(|e| e.to_string())
}

/// `PasswordHash::new` on `hash`, then `Argon2::default().verify_password`
/// of `password` against it.
#[verifier::external_body]
fn argon2_check(password: &str, hash: &str) -> (r: CheckResult)
    ensures
        r is Ok <==> phc_parses(hash@),
        r matches Ok(b) ==> b == argon2_accepts(password@, hash@),
{
    let parsed = PasswordHash::new(hash).map_err(|e| e.to_string())?;
    Ok(Argon2::default().verify_password(password.as_bytes(), &parsed).is_ok())
}

/// `hashpw` may answer `Ok(h)`: `h` is an Argon2id PHC string that
/// verifies `password`.
pub open spec fn hashed_from(password: Seq<char>, h: Seq<char>) -> bool {
    has_prefix(h, "$argon2id$"@) && phc_parses(h) && argon2_accepts(password, h)
}

/// The longest password, in UTF-8 bytes, that Argon2 takes.
pub open spec fn hashable(password: Seq<char>) -> bool {
    encode_utf8(password).len() <= 0xFFFF_FFFF
}

/// What `verifypw` answers: `None` where the stored hash does not parse.
pub open spec fn spec_verifypw(password: Seq<char>, hash: Seq<char>) -> Option<bool> {
    if phc_parses(hash) {
        Some(argon2_accepts(password, hash))
    } else {
        None
    }
}

/// Hashes a password with argon2id and a fresh random salt.
pub fn hashpw(password: &str) -> (r: Result<String, AppError>)
    ensures
        r matches Ok(h) ==> hashed_from(password@, h@),
        r matches Err(e) ==> e@.0 == ErrorKind::Internal,
        hashable(password@) ==> r is Ok,
{
    match argon2_hash(password) {
        Ok(h) => Ok(h),
        Err(m) => Err(internal(m)),
    }
}

/// Verifies a password against an argon2id hash; a hash that does not parse
/// is an internal error.
pub fn verifypw(password: &str, hash: &str) -> (r: Result<bool, AppError>)
    ensures
        (match spec_verifypw(password@, hash@) {
            Some(b) => r == Ok::<bool, AppError>(b),
            None => r matches Err(e) && e@.0 == ErrorKind::Internal,
        }),
{
    match argon2_check(password, hash) {
        Ok(b) => Ok(b),
        Err(m) => Err(internal(m)),
    }
}

/// `t` is the lowercase hex of `n` bytes.
pub open spec fn is_hex_of_bytes(t: Seq<char>, n: nat) -> bool {
    exists|b: Seq<u8>| b.len() == n && t == hex_lower(b)
}

/// Lowercase hex has two digits per byte.
proof fn lemma_hex_len(b: Seq<u8>)
    ensures
        hex_lower(b).len() == 2 * b.len(),
    decreases b.len(),
{
    if b.len() > 0 {
        lemma_hex_len(b.drop_first());
    }
}

/// UTF-8 takes at most four bytes per character.
proof fn lemma_utf8_len_bound(s: Seq<char>)
    ensures
        encode_utf8(s).len() <= 4 * s.len(),
    decreases s.len(),
{
    if s.len() > 0 {
        lemma_utf8_len_bound(s.drop_first());
    }
}

/// The hex of `n` bytes, for a modest `n`, is a password Argon2 takes.
pub proof fn lemma_hex_hashable(t: Seq<char>, n: nat)
    requires
        is_hex_of_bytes(t, n),
        n <= 0x1000_0000,
    ensures
        hashable(t),
{
    let b = choose|b: Seq<u8>| b.len() == n && t == hex_lower(b);
    lemma_hex_len(b);
    lemma_utf8_len_bound(t);
}

/// Generates a random 32-byte token, in lowercase hex.
pub fn gentoken() -> (r: String)
    ensures
        is_hex_of_bytes(r@, 32),
{
    let bytes: [u8; 32] = random_bytes();
    let r = hex_encode(&bytes);
    assert(bytes@.len() == 32);
    r
}

/// The stored form of a token: lowercase hex of the SHA-256 of its UTF-8
/// bytes.
pub open spec fn token_digest(token: Seq<char>) -> Seq<char> {
    hex_lower(sha256(encode_utf8(token)))
}

/// SHA-256 hash for storing tokens.
pub fn hashtoken(token: &str) -> (r: String)
    ensures
        r@ == token_digest(token@),
{
    let d = sha256_digest(token.as_bytes());
    hex_encode(d.as_slice())
}

/// Generates a readable client id: 4 random bytes, 8 hex characters.
pub fn genclientid() -> (r: String)
    ensures
        is_hex_of_bytes(r@, 4),
{
    let bytes: [u8; 4] = random_bytes();
    let r = hex_encode(&bytes);
    assert(bytes@.len() == 4);
    r
}

/// Generates a random client secret (32 bytes, hex).
pub fn gensecret() -> (r: String)
    ensures
        is_hex_of_bytes(r@, 32),
{
    gentoken()
}

/// The PKCE `S256` challenge of a verifier: URL-safe base64, without
/// padding, of the SHA-256 of its UTF-8 bytes.
pub open spec fn s256_challenge(verifier: Seq<char>) -> Seq<char> {
    b64_url(sha256(encode_utf8(verifier)))
}

/// Computes the PKCE S256 challenge of a verifier.
pub fn pkcechallenge(verifier: &str) -> (r: String)
    ensures
        r@ == s256_challenge(verifier@),
{
    let d = sha256_digest(verifier.as_bytes());
    b64_url_encode(d.as_slice())
}

/// A password hashed by `hashpw` is accepted by `verifypw`: whatever `h`
/// `hashpw(password)` returns, `verifypw(password, h)` answers `Ok(true)`.
pub proof fn law_hashed_password_verifies(password: Seq<char>, h: Seq<char>)
    requires
        hashed_from(password, h),
    ensures
        spec_verifypw(password, h) == Some(true),
{
}

} // verus!
