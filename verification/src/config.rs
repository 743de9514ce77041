//! Server configuration, made from the values of its environment variables.
use vstd::prelude::*;

use jsonwebtoken::{DecodingKey, EncodingKey};

use crate::decimal::{parse_u16, spec_parse_u16};
use crate::jwt::opt_view;
use crate::text::{chars_of, owned, push_char};

verus! {

#[verifier::external_type_specification]
#[verifier::external_body]
pub struct ExEncodingKey(EncodingKey);

#[verifier::external_type_specification]
#[verifier::external_body]
pub struct ExDecodingKey(DecodingKey);

/// `EncodingKey::from_rsa_pem` accepts the bytes of `pem`.
pub uninterp spec fn signing_pem_ok(pem: Seq<char>) -> bool;

/// `DecodingKey::from_rsa_pem` accepts the bytes of `pem`.
pub uninterp spec fn verifying_pem_ok(pem: Seq<char>) -> bool;

/// `EncodingKey::from_rsa_pem` on the bytes of `pem`.
#[verifier::external_body]
pub(crate) fn encoding_key_from_pem(pem: &str) -> (r: Option<EncodingKey>)
    ensures
        r is Some <==> signing_pem_ok(pem@),
{
    EncodingKey::from_rsa_pem(pem.as_bytes()).ok()
}

/// `DecodingKey::from_rsa_pem` on the bytes of `pem`.
#[verifier::external_body]
pub(crate) fn decoding_key_from_pem(pem: &str) -> (r: Option<DecodingKey>)
    ensures
        r is Some <==> verifying_pem_ok(pem@),
{
    DecodingKey::from_rsa_pem(pem.as_bytes()).ok()
}

/// `s` with every two-character sequence `\n` (backslash, `n`), read left
/// to right, replaced by a newline; what `str::replace("\\n", "\n")` gives.
pub open spec fn unescape_newlines(s: Seq<char>) -> Seq<char>
    decreases s.len(),
{
    if s.len() == 0 {
        Seq::empty()
    } else if s.len() >= 2 && s[0] == '\\' && s[1] == 'n' {
        seq!['\n'] + unescape_newlines(s.skip(2))
    } else {
        seq![s[0]] + unescape_newlines(s.skip(1))
    }
}

/// Replaces each escaped `\n` in `s` by a newline.
pub fn unescape(s: &str) -> (r: String)
    ensures
        r@ == unescape_newlines(s@),
{
    let v = chars_of(s);
    let mut out = String::new();
    let mut i: usize = 0;
    assert(v@.skip(0) =~= v@);
    while i < v.len()
        invariant
            i <= v@.len(),
            v@ == s@,
            unescape_newlines(s@) == out@ + unescape_newlines(v@.skip(i as int)),
        decreases v@.len() - i,
    {
        let ghost rest = v@.skip(i as int);
        if i + 1 < v.len() && v[i] == '\\' && v[i + 1] == 'n' {
            assert(rest.skip(2) =~= v@.skip(i + 2));
            push_char(&mut out, '\n');
            assert(out@ + unescape_newlines(v@.skip(i + 2)) =~= (out@.drop_last()) + unescape_newlines(rest));
            i += 2;
        } else {
            assert(rest.skip(1) =~= v@.skip(i + 1));
            push_char(&mut out, v[i]);
            assert(out@ + unescape_newlines(v@.skip(i + 1)) =~= (out@.drop_last()) + unescape_newlines(rest));
            i += 1;
        }
    }
    assert(v@.skip(i as int) =~= Seq::<char>::empty());
    assert(out@ + Seq::<char>::empty() =~= out@);
    out
}

/// Why the configuration cannot be made.
#[derive(PartialEq, Eq, Structural, Clone, Copy, Debug)]
pub enum ConfigError {
    MissingPrivateKey,
    MissingPublicKey,
    MissingDatabaseUrl,
    BadPort,
    BadPrivateKey,
    BadPublicKey,
}

impl ConfigError {
    /// The message the server stops with.
    pub fn message(&self) -> (r: &'static str)
        ensures
            r@ == spec_config_message(*self),
    {
        match self {
            ConfigError::MissingPrivateKey => "JWT_PRIVATE_KEY must be set",
            ConfigError::MissingPublicKey => "JWT_PUBLIC_KEY must be set",
            ConfigError::MissingDatabaseUrl => "DATABASE_URL must be set",
            ConfigError::BadPort => "PORT must be a number",
            ConfigError::BadPrivateKey => "invalid RSA private key",
            ConfigError::BadPublicKey => "invalid RSA public key",
        }
    }
}

pub open spec fn spec_config_message(e: ConfigError) -> Seq<char> {
    match e {
        ConfigError::MissingPrivateKey => "JWT_PRIVATE_KEY must be set"@,
        ConfigError::MissingPublicKey => "JWT_PUBLIC_KEY must be set"@,
        ConfigError::MissingDatabaseUrl => "DATABASE_URL must be set"@,
        ConfigError::BadPort => "PORT must be a number"@,
        ConfigError::BadPrivateKey => "invalid RSA private key"@,
        ConfigError::BadPublicKey => "invalid RSA public key"@,
    }
}

/// The values of the environment variables the server reads (`None` when
/// unset): `DATABASE_URL`, `HOST`, `PORT`, `JWT_PRIVATE_KEY`,
/// `JWT_PUBLIC_KEY`.
pub struct EnvVars {
    pub database_url: Option<String>,
    pub host: Option<String>,
    pub port: Option<String>,
    pub private_key: Option<String>,
    pub public_key: Option<String>,
}

/// The port text: `PORT`, or `3000` when unset.
pub open spec fn port_text(port: Option<Seq<char>>) -> Seq<char> {
    match port {
        Some(p) => p,
        None => "3000"@,
    }
}

/// The first problem with the variables, in the order the server meets
/// them: the two keys, the database URL, the port, then each key's PEM.
pub open spec fn spec_config_error(e: EnvVars) -> Option<ConfigError> {
    if e.private_key is None {
        Some(ConfigError::MissingPrivateKey)
    } else if e.public_key is None {
        Some(ConfigError::MissingPublicKey)
    } else if e.database_url is None {
        Some(ConfigError::MissingDatabaseUrl)
    } else if spec_parse_u16(port_text(opt_view(e.port))) is None {
        Some(ConfigError::BadPort)
    } else if !signing_pem_ok(unescape_newlines(e.private_key->0@)) {
        Some(ConfigError::BadPrivateKey)
    } else if !verifying_pem_ok(unescape_newlines(e.public_key->0@)) {
        Some(ConfigError::BadPublicKey)
    } else {
        None
    }
}

/// Configuration of the authorization server.
pub struct Config {
    pub dburl: String,
    pub host: String,
    pub port: u16,
    pub privatekey: EncodingKey,
    pub publickey: DecodingKey,
    pub publickeypem: String,
}

impl Config {
    /// The configuration from the variables' values: keys have their
    /// escaped newlines restored, `HOST` defaults to `0.0.0.0` and `PORT`
    /// to `3000`.
    pub fn from_vars(e: EnvVars) -> (r: Result<Config, ConfigError>)
        ensures
            (match spec_config_error(e) {
                Some(err) => r == Err::<Config, ConfigError>(err),
                None => r matches Ok(c) && {
                    &&& c.dburl@ == e.database_url->0@
                    &&& c.host@ == (match e.host {
                        Some(h) => h@,
                        None => "0.0.0.0"@,
                    })
                    &&& Some(c.port) == spec_parse_u16(port_text(opt_view(e.port)))
                    &&& c.publickeypem@ == unescape_newlines(e.public_key->0@)
                },
            }),
    {
        let privraw = match e.private_key {
            Some(p) => p,
            None => {
                return Err(ConfigError::MissingPrivateKey);
            },
        };
        let pubraw = match e.public_key {
            Some(p) => p,
            None => {
                return Err(ConfigError::MissingPublicKey);
            },
        };
        let privpem = unescape(privraw.as_str());
        let pubpem = unescape(pubraw.as_str());
        let dburl = match e.database_url {
            Some(d) => d,
            None => {
                return Err(ConfigError::MissingDatabaseUrl);
            },
        };
        let host = match e.host {
            Some(h) => h,
            None => owned("0.0.0.0"),
        };
        let porttext = match e.port {
            Some(p) => chars_of(p.as_str()),
            None => chars_of("3000"),
        };
        let port = match parse_u16(&porttext) {
            Some(p) => p,
            None => {
                return Err(ConfigError::BadPort);
            },
        };
        let privatekey = match encoding_key_from_pem(privpem.as_str()) {
            Some(k) => k,
            None => {
                return Err(ConfigError::BadPrivateKey);
            },
        };
        let publickey = match decoding_key_from_pem(pubpem.as_str()) {
            Some(k) => k,
            None => {
                return Err(ConfigError::BadPublicKey);
            },
        };
        Ok(Config { dburl, host, port, privatekey, publickey, publickeypem: pubpem })
    }
}

} // verus!
