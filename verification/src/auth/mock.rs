//! Test helpers: claims of made-up users and a development signing key.
use vstd::prelude::*;

use jsonwebtoken::EncodingKey;
use rsa::pkcs8::{EncodePrivateKey, EncodePublicKey, LineEnding};
use rsa::RsaPrivateKey;

use crate::auth::claims::{Claims, PersonType};
use crate::config::{encoding_key_from_pem, signing_pem_ok};
use crate::decimal::parse_i32;
use crate::extract::rollnum_batch;
use crate::jwt::{new_uuid, rsa_public_pem_valid, unix_now};
use crate::routes::account::clock_reading;
use crate::text::{chars_of, concat2, concat3, owned, slice_chars};

verus! {

/// A development key pair: the signing key and the public key's PEM.
pub struct DevKeypair {
    pub encoding: EncodingKey,
    /// The private key's PKCS#8 PEM, which `encoding` was made from.
    pub privatepem: String,
    pub publicpem: String,
}

/// PEM texts of a key pair, or why it could not be made.
pub type PemPair = Result<(String, String), String>;

/// The messages with which making the development key's PEM texts fails.
pub open spec fn pem_failure(m: Seq<char>) -> bool {
    ||| m == "failed to generate dev key"@
    ||| m == "failed to encode private key"@
    ||| m == "failed to encode public key"@
}

/// A public key's PEM as `rsa` writes it with LF line endings: the
/// `-----BEGIN PUBLIC KEY-----` line first and the `-----END PUBLIC KEY-----`
/// line last.
pub open spec fn public_pem_framed(pem: Seq<char>) -> bool {
    exists|body: Seq<char>|
        pem == "-----BEGIN PUBLIC KEY-----\n"@ + body + "\n-----END PUBLIC KEY-----\n"@
}

/// The SPKI PEM (LF line endings) of the public half of the RSA key held
/// in the PKCS#8 PEM `privpem`, as `rsa` writes it: `to_public_key` then
/// `to_public_key_pem`.
pub uninterp spec fn public_pem_of(privpem: Seq<char>) -> Seq<char>;

/// A fresh 2048-bit RSA key (`RsaPrivateKey::new` with `thread_rng`), as
/// PKCS#8 PEM of the private key and SPKI PEM of the public key, with LF
/// line endings. The key is random, so nothing is stated of its numbers;
/// what holds of every outcome is that the public PEM, written by the
/// `EncodePublicKey` impl of `rsa`, is read back by its
/// `DecodePublicKey` impl (`from_public_key_pem`), that it is framed by the
/// `PUBLIC KEY` boundary lines (`pem-rfc7468`'s encoder), that it is the
/// public half of the key written in the private PEM, and that a failure
/// carries one of the messages above.
#[verifier::external_body]
fn generate_rsa_pems() -> (r: PemPair)
    ensures
        r matches Ok(p) ==> rsa_public_pem_valid(p.1@) && public_pem_framed(p.1@) && p.1@
            == public_pem_of(p.0@),
        r matches Err(m) ==> pem_failure(m@),
{
    let mut rng = rand::thread_rng();
    let privkey = RsaPrivateKey::new(&mut rng, 2048).map_err(|_| "failed to generate dev key".to_string())?;
    let privpem = privkey.to_pkcs8_pem(LineEnding::LF).map_err(|_| "failed to encode private key".to_string())?;
    let pubpem = privkey.to_public_key().to_public_key_pem(LineEnding::LF).map_err(|_| "failed to encode public key".to_string())?;
    Ok((privpem.to_string(), pubpem))
}

/// A development key pair from the PEM texts of its two halves: the signing
/// key is made from the private PEM, and fails when `jsonwebtoken` does not
/// accept it.
pub fn keypair_from_pems(privpem: String, publicpem: String) -> (r: Result<DevKeypair, String>)
    ensures
        r is Ok <==> signing_pem_ok(privpem@),
        r matches Ok(k) ==> k.privatepem@ == privpem@ && k.publicpem@ == publicpem@,
        r matches Err(m) ==> m@ == "invalid dev private key"@,
{
    match encoding_key_from_pem(privpem.as_str()) {
        Some(encoding) => Ok(DevKeypair { encoding, privatepem: privpem, publicpem }),
        None => Err(owned("invalid dev private key")),
    }
}

impl DevKeypair {
    /// Generates a development key pair: a fresh key's private PEM, accepted
    /// as a signing key, and the PEM of its public half, one that `jwks` can
    /// publish. A failure says which step failed.
    pub fn generate() -> (r: Result<DevKeypair, String>)
        ensures
            r matches Ok(k) ==> signing_pem_ok(k.privatepem@) && k.publicpem@ == public_pem_of(
                k.privatepem@,
            ) && rsa_public_pem_valid(k.publicpem@) && public_pem_framed(k.publicpem@),
            r matches Err(m) ==> pem_failure(m@) || m@ == "invalid dev private key"@,
    {
        let (privpem, publicpem) = generate_rsa_pems()?;
        keypair_from_pems(privpem, publicpem)
    }
}

/// The development public key's PEM, for building a mock key set.
pub fn publickeypem(keys: &DevKeypair) -> (r: &str)
    ensures
        r@ == keys.publicpem@,
{
    keys.publicpem.as_str()
}

/// Claims of a made-up user, for tests.
pub struct MockClaims {
    pub claims: Claims,
}

/// The batch of a mock student: read from the roll number, 2021 when it
/// cannot be.
pub open spec fn mock_batch(rollnum: Seq<char>) -> i32 {
    match rollnum_batch(rollnum) {
        Some(b) => b,
        None => 2021,
    }
}

/// Mock claims are issued now and expire 15 minutes later (each read of the
/// clock is its own).
pub open spec fn fresh(c: Claims) -> bool {
    &&& exists|t: i64| #[trigger] clock_reading(t) && c.exp == t + 900
    &&& clock_reading(c.iat)
}

/// Creates mock student claims.
pub fn student(rollnum: &str, branch: &str) -> (r: MockClaims)
    ensures
        r.claims.rollnum matches Some(x) && x@ == rollnum@,
        r.claims.email@ == "test."@ + rollnum@ + "@students.iiit.ac.in"@,
        r.claims.batch == Some(mock_batch(rollnum@)),
        r.claims.branch matches Some(x) && x@ == branch@,
        r.claims.persontype == PersonType::Student,
        fresh(r.claims),
{
    let v = chars_of(rollnum);
    let parsed = if v.len() >= 4 {
        let head = slice_chars(&v, 0, 4);
        assert(head@ == v@.take(4));
        parse_i32(&head)
    } else {
        None
    };
    let batch: i32 = match parsed {
        Some(b) => b,
        None => 2021,
    };
    let sub = new_uuid();
    let t = unix_now();
    let iat = unix_now();
    let jti = new_uuid();
    assert(clock_reading(t));
    MockClaims {
        claims: Claims {
            sub,
            rollnum: Some(owned(rollnum)),
            email: concat3("test.", rollnum, "@students.iiit.ac.in"),
            batch: Some(batch),
            branch: Some(owned(branch)),
            persontype: PersonType::Student,
            exp: t + 900,
            iat,
            jti,
        },
    }
}

/// Creates mock faculty claims.
pub fn faculty(email: &str) -> (r: MockClaims)
    ensures
        r.claims.rollnum is None,
        r.claims.email@ == email@,
        r.claims.batch is None,
        r.claims.branch is None,
        r.claims.persontype == PersonType::Faculty,
        fresh(r.claims),
{
    let sub = new_uuid();
    let t = unix_now();
    let iat = unix_now();
    let jti = new_uuid();
    assert(clock_reading(t));
    MockClaims {
        claims: Claims {
            sub,
            rollnum: None,
            email: owned(email),
            batch: None,
            branch: None,
            persontype: PersonType::Faculty,
            exp: t + 900,
            iat,
            jti,
        },
    }
}

impl MockClaims {
    /// The `Authorization` header value carrying a token signed for these
    /// claims: `Bearer ` and the token.
    pub fn bearer(token: &str) -> (r: String)
        ensures
            r@ == "Bearer "@ + token@,
    {
        concat2("Bearer ", token)
    }
}

} // verus!
