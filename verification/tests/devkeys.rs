use jsonwebtoken::{decode, encode, Algorithm, Header, Validation};
use rsa::pkcs8::{DecodePrivateKey, EncodePublicKey, LineEnding};
use rsa::RsaPrivateKey;
use serde_json::{Number, Value};

use ocas::auth::caches::{JwkText, JwksCache};
use ocas::auth::mock::{keypair_from_pems, publickeypem, DevKeypair};
use ocas::auth::router::{login_redirect, SIGNIN_COOKIE_AGE};
use ocas::auth::config::OcasConfig;
use ocas::hash::pkcechallenge;
use ocas::jwt::jwks;

fn token_claims() -> Value {
    let mut v = Value::Object(Default::default());
    v["sub"] = Value::String("7".to_string());
    v["exp"] = Value::Number(Number::from(4_000_000_000u64));
    v
}

#[test]
fn keypair_from_bad_private_pem_fails() {
    let r = keypair_from_pems("not a key".to_string(), "pub".to_string());
    assert_eq!(r.err().as_deref(), Some("invalid dev private key"));
}

#[test]
fn dev_public_key_is_the_half_of_the_signing_key() {
    let k = DevKeypair::generate().ok().unwrap();
    let pem = publickeypem(&k);
    assert!(pem.starts_with("-----BEGIN PUBLIC KEY-----\n"));
    assert!(pem.ends_with("\n-----END PUBLIC KEY-----\n"));
    let private = RsaPrivateKey::from_pkcs8_pem(&k.privatepem).ok().unwrap();
    let public = private.to_public_key().to_public_key_pem(LineEnding::LF).ok().unwrap();
    assert_eq!(public, k.publicpem);
    let again = keypair_from_pems(k.privatepem.clone(), k.publicpem.clone()).ok().unwrap();
    assert_eq!(again.publicpem, k.publicpem);
}

#[test]
fn token_signed_with_dev_key_verifies_under_cached_published_key() {
    let k = DevKeypair::generate().ok().unwrap();
    let token = encode(&Header::new(Algorithm::RS256), &token_claims(), &k.encoding).ok().unwrap();
    let set = jwks(publickeypem(&k));
    let jwk = &set.keys[0];
    let mut cache = JwksCache::new("https://auth.example");
    assert!(cache.install(&vec![JwkText { n: jwk.n.clone(), e: jwk.e.clone() }]).is_ok());
    let key = cache.key().unwrap();
    let data = decode::<Value>(&token, &key, &Validation::new(Algorithm::RS256)).ok().unwrap();
    assert_eq!(data.claims["sub"], Value::String("7".to_string()));

    // modulus and exponent swapped: the cached key no longer verifies
    let mut swapped = JwksCache::new("https://auth.example");
    assert!(swapped.install(&vec![JwkText { n: jwk.e.clone(), e: jwk.n.clone() }]).is_ok());
    let bad = swapped.key().unwrap();
    assert!(decode::<Value>(&token, &bad, &Validation::new(Algorithm::RS256)).is_err());
}

#[test]
fn login_redirect_carries_challenge_and_sets_pending_cookies() {
    let config = OcasConfig {
        url: "https://auth.example".into(),
        clientid: "cid".into(),
        clientsecret: "sec".into(),
        callbackurl: "https://app/cb".into(),
        blocklist: true,
        afterlogin: "/".into(),
        afterlogout: "/".into(),
    };
    let (url, cookies) = login_redirect(&config, "ver", "st");
    assert_eq!(
        url,
        format!(
            "https://auth.example/authorize?client_id=cid&redirect_uri=https://app/cb&state=st&code_challenge={}&code_challenge_method=S256&response_type=code",
            pkcechallenge("ver")
        )
    );
    assert_eq!(SIGNIN_COOKIE_AGE, 600);
    assert_eq!(cookies[0], "ocas_verifier=ver; HttpOnly; SameSite=Lax; Path=/; Max-Age=600");
    assert_eq!(cookies[1], "ocas_state=st; HttpOnly; SameSite=Lax; Path=/; Max-Age=600");
}
