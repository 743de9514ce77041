//! The client's caches of what the server publishes: the blocked token ids
//! and the signing key. They are filled from the server's answers; this
//! module decides what they hold.
use vstd::prelude::*;

use std::collections::HashSet;

use jsonwebtoken::DecodingKey;

use crate::auth::claims::Claims;
use crate::codec::{b64_url_decode, url_decoded};
use crate::text::{concat2, owned};

verus! {

/// Caches the blocked jtis fetched from the server's `/blocklist`.
pub struct BlocklistCache {
    jtis: HashSet<u128>,
    url: String,
}

impl View for BlocklistCache {
    /// The cached jtis.
    type V = Set<u128>;

    closed spec fn view(&self) -> Set<u128> {
        self.jtis@
    }
}

impl BlocklistCache {
    /// Where the blocklist is fetched from.
    pub closed spec fn spec_url(&self) -> Seq<char> {
        self.url@
    }

    /// An empty cache for the server at `baseurl`.
    pub fn new(baseurl: &str) -> (r: Self)
        ensures
            r@ == Set::<u128>::empty(),
            r.spec_url() == baseurl@ + "/blocklist"@,
    {
        BlocklistCache { jtis: HashSet::new(), url: concat2(baseurl, "/blocklist") }
    }

    /// The blocklist's address.
    pub fn url(&self) -> (r: &str)
        ensures
            r@ == self.spec_url(),
    {
        self.url.as_str()
    }

    /// Replaces the cached jtis with a freshly fetched list.
    pub fn replace(&mut self, jtis: Vec<u128>)
        ensures
            final(self)@ == jtis@.to_set(),
            final(self).spec_url() == old(self).spec_url(),
    {
        broadcast use vstd::std_specs::hash::group_hash_axioms;

        let mut set: HashSet<u128> = HashSet::new();
        let mut i: usize = 0;
        while i < jtis.len()
            invariant
                i <= jtis@.len(),
                set@ == jtis@.take(i as int).to_set(),
            decreases jtis@.len() - i,
        {
            set.insert(jtis[i]);
            assert(jtis@.take(i + 1).to_set() =~= jtis@.take(i as int).to_set().insert(jtis@[i as int])) by {
                assert forall|x: u128| #[trigger] jtis@.take(i + 1).contains(x) <==> (jtis@.take(
                    i as int,
                ).contains(x) || x == jtis@[i as int]) by {
                    if jtis@.take(i + 1).contains(x) {
                        let k = choose|k: int| 0 <= k < i + 1 && #[trigger] jtis@.take(i + 1)[k] == x;
                        if k < i {
                            assert(jtis@.take(i as int)[k] == x);
                        }
                    }
                    if jtis@.take(i as int).contains(x) {
                        let k = choose|k: int| 0 <= k < i && #[trigger] jtis@.take(i as int)[k] == x;
                        assert(jtis@.take(i + 1)[k] == x);
                    }
                    if x == jtis@[i as int] {
                        assert(jtis@.take(i + 1)[i as int] == x);
                    }
                }
            }
            i += 1;
        }
        assert(jtis@.take(jtis@.len() as int) =~= jtis@);
        self.jtis = set;
    }

    /// Whether `jti` is in the cached blocklist.
    pub fn contains(&self, jti: u128) -> (r: bool)
        ensures
            r == self@.contains(jti),
    {
        broadcast use vstd::std_specs::hash::group_hash_axioms;

        self.jtis.contains(&jti)
    }
}

/// The RSA verifying key that `DecodingKey::from_rsa_raw_components` makes
/// from the big-endian bytes `n` of a modulus and `e` of an exponent.
pub uninterp spec fn rsa_key_from(n: Seq<u8>, e: Seq<u8>) -> DecodingKey;

/// `DecodingKey::from_rsa_raw_components`: an RSA key from the big-endian
/// bytes of its modulus and exponent. The key is opaque; its contract names
/// it by the two byte strings it is made from, which is all it depends on.
#[verifier::external_body]
fn key_from_components(n: &[u8], e: &[u8]) -> (r: DecodingKey)
    ensures
        r == rsa_key_from(n@, e@),
{
    DecodingKey::from_rsa_raw_components(n, e)
}

/// One published key, as text: its `n` and `e` in URL-safe base64.
pub struct JwkText {
    pub n: String,
    pub e: String,
}

/// Caches the server's public key fetched from `/jwks.json`.
pub struct JwksCache {
    /// The cached key's modulus and exponent, big-endian.
    key: Option<(Vec<u8>, Vec<u8>)>,
    url: String,
}

impl JwksCache {
    /// The modulus and exponent bytes of the cached key, if there is one.
    pub closed spec fn spec_parts(&self) -> Option<(Seq<u8>, Seq<u8>)> {
        match self.key {
            Some(k) => Some((k.0@, k.1@)),
            None => None,
        }
    }

    /// Whether a key is cached.
    pub closed spec fn spec_has_key(&self) -> bool {
        self.key is Some
    }

    /// Where the key set is fetched from.
    pub closed spec fn spec_url(&self) -> Seq<char> {
        self.url@
    }

    /// An empty cache for the server at `baseurl`.
    pub fn new(baseurl: &str) -> (r: Self)
        ensures
            !r.spec_has_key(),
            r.spec_parts() is None,
            r.spec_url() == baseurl@ + "/jwks.json"@,
    {
        JwksCache { key: None, url: concat2(baseurl, "/jwks.json") }
    }

    /// The key set's address.
    pub fn url(&self) -> (r: &str)
        ensures
            r@ == self.spec_url(),
    {
        self.url.as_str()
    }

    /// Whether a key is cached.
    pub fn has_key(&self) -> (r: bool)
        ensures
            r == self.spec_has_key(),
    {
        self.key.is_some()
    }

    /// The cached key, made from the cached modulus and exponent.
    pub fn key(&self) -> (r: Option<DecodingKey>)
        ensures
            r is Some == self.spec_has_key(),
            r matches Some(k) ==> (self.spec_parts() matches Some(p) && k == rsa_key_from(p.0, p.1)),
    {
        match &self.key {
            Some(k) => Some(key_from_components(k.0.as_slice(), k.1.as_slice())),
            None => None,
        }
    }

    /// Caches the first key of a fetched key set. Fails, keeping the cache
    /// as it was, when the set is empty or a component is not URL-safe
    /// base64; otherwise the key is made from the decoded modulus and
    /// exponent.
    pub fn install(&mut self, keys: &Vec<JwkText>) -> (r: Result<(), String>)
        ensures
            final(self).spec_has_key() <==> final(self).spec_parts() is Some,
            final(self).spec_url() == old(self).spec_url(),
            keys@.len() == 0 ==> (r matches Err(m) && m@ == "no keys in jwks"@),
            keys@.len() > 0 ==> (r is Ok <==> (url_decoded(keys@[0].n@) is Some && url_decoded(
                keys@[0].e@,
            ) is Some)),
            r is Err ==> final(self).spec_parts() == old(self).spec_parts() && final(self).spec_has_key()
                == old(self).spec_has_key(),
            r is Ok ==> final(self).spec_has_key() && final(self).spec_parts() == Some(
                (url_decoded(keys@[0].n@)->0, url_decoded(keys@[0].e@)->0),
            ),
    {
        if keys.len() == 0 {
            return Err(owned("no keys in jwks"));
        }
        let jwk = &keys[0];
        let n = match b64_url_decode(jwk.n.as_str()) {
            Ok(b) => b,
            Err(m) => {
                return Err(m);
            },
        };
        let e = match b64_url_decode(jwk.e.as_str()) {
            Ok(b) => b,
            Err(m) => {
                return Err(m);
            },
        };
        self.key = Some((n, e));
        Ok(())
    }
}

/// Where verifying a token stands: a token is decoded with the cached key,
/// fetching the key set first when none is cached, and fetching it again
/// once (then decoding again) when the first decoding fails.
#[derive(PartialEq, Eq, Structural, Clone, Copy, Debug)]
pub enum VerifyPhase {
    /// Nothing done yet.
    Start,
    /// Fetching the key set because none was cached.
    InitialFetch,
    /// Decoding with the cached key.
    FirstDecode,
    /// Fetching the key set again after a failed decoding.
    Refetch,
    /// Decoding again with the refetched key.
    SecondDecode,
    /// The answer has been given.
    Done,
}

/// What happened in the step just taken.
pub enum VerifyEvent {
    /// Verification begins; whether a key is cached.
    Begin { has_key: bool },
    /// A fetch of the key set ended, with its error if it failed.
    Fetched(Result<(), String>),
    /// A decoding ended.
    Decoded(Result<Claims, String>),
}

/// What to do next.
pub enum VerifyAction {
    Fetch,
    Decode,
    Finish(Result<Claims, String>),
}

/// The next phase and action of verifying a token, given the phase it is in
/// and what just happened. Events that do not belong to a phase finish with
/// an error.
pub fn verify_step(phase: VerifyPhase, event: VerifyEvent) -> (r: (VerifyPhase, VerifyAction))
    ensures
        (match (phase, event) {
            (VerifyPhase::Start, VerifyEvent::Begin { has_key }) => if has_key {
                r.0 == VerifyPhase::FirstDecode && r.1 is Decode
            } else {
                r.0 == VerifyPhase::InitialFetch && r.1 is Fetch
            },
            (VerifyPhase::InitialFetch, VerifyEvent::Fetched(f)) => match f {
                Ok(_) => r.0 == VerifyPhase::FirstDecode && r.1 is Decode,
                Err(m) => r.0 == VerifyPhase::Done && (r.1 matches VerifyAction::Finish(Err(x)) && x@
                    == m@),
            },
            (VerifyPhase::FirstDecode, VerifyEvent::Decoded(d)) => match d {
                Ok(c) => r.0 == VerifyPhase::Done && r.1 == VerifyAction::Finish(Ok(c)),
                Err(_) => r.0 == VerifyPhase::Refetch && r.1 is Fetch,
            },
            (VerifyPhase::Refetch, VerifyEvent::Fetched(f)) => match f {
                Ok(_) => r.0 == VerifyPhase::SecondDecode && r.1 is Decode,
                Err(m) => r.0 == VerifyPhase::Done && (r.1 matches VerifyAction::Finish(Err(x)) && x@
                    == m@),
            },
            (VerifyPhase::SecondDecode, VerifyEvent::Decoded(d)) => r.0 == VerifyPhase::Done
                && r.1 == VerifyAction::Finish(d),
            _ => r.0 == VerifyPhase::Done && (r.1 matches VerifyAction::Finish(Err(x)) && x@
                == "verification out of order"@),
        }),
{
    match (phase, event) {
        (VerifyPhase::Start, VerifyEvent::Begin { has_key }) => {
            if has_key {
                (VerifyPhase::FirstDecode, VerifyAction::Decode)
            } else {
                (VerifyPhase::InitialFetch, VerifyAction::Fetch)
            }
        },
        (VerifyPhase::InitialFetch, VerifyEvent::Fetched(f)) => match f {
            Ok(_) => (VerifyPhase::FirstDecode, VerifyAction::Decode),
            Err(m) => (VerifyPhase::Done, VerifyAction::Finish(Err(m))),
        },
        (VerifyPhase::FirstDecode, VerifyEvent::Decoded(d)) => match d {
            Ok(c) => (VerifyPhase::Done, VerifyAction::Finish(Ok(c))),
            Err(_) => (VerifyPhase::Refetch, VerifyAction::Fetch),
        },
        (VerifyPhase::Refetch, VerifyEvent::Fetched(f)) => match f {
            Ok(_) => (VerifyPhase::SecondDecode, VerifyAction::Decode),
            Err(m) => (VerifyPhase::Done, VerifyAction::Finish(Err(m))),
        },
        (VerifyPhase::SecondDecode, VerifyEvent::Decoded(d)) => (
            VerifyPhase::Done,
            VerifyAction::Finish(d),
        ),
        _ => (VerifyPhase::Done, VerifyAction::Finish(Err(owned("verification out of order")))),
    }
}

} // verus!
