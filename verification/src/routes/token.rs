//! The token endpoints: refresh-token rotation and revocation, and the
//! OAuth2 authorization-code exchange with client authentication and PKCE.
use vstd::prelude::*;
use vstd::utf8::{decode_utf8, encode_utf8, encode_utf8_decode_utf8, encode_utf8_valid_utf8, valid_utf8};

use crate::codec::{b64_standard, b64_standard_decode, standard_decoded, utf8_string};
use crate::error::{answers, bad_request, unauthorized, AppError, ErrorKind, Verdict};
use crate::hash::{pkcechallenge, s256_challenge, verifypw};
use crate::models::{AuthCode, Client, RefreshToken};
use crate::routes::account::password_verdict;
use crate::text::{
    chars_eq, chars_of, find_char, first_pos, has_prefix, is_first_pos, lemma_first_pos_unique,
    starts_with_chars, str_eq, string_of_range,
};

verus! {

/// The body of a refresh or revoke request.
pub struct RefreshBody {
    pub refresh: String,
}

/// The form of an authorization-code exchange.
pub struct TokenExchangeBody {
    pub grant_type: String,
    pub code: String,
    pub redirect_uri: String,
    pub code_verifier: String,
}

/// A refresh token is honoured only when a live stored copy was found (and
/// taken out of the store).
pub fn require_stored(row: Option<RefreshToken>) -> (r: Result<RefreshToken, AppError>)
    ensures
        (match row {
            Some(t) => r == Ok::<RefreshToken, AppError>(t),
            None => r matches Err(e) && e@ == (
                ErrorKind::Unauthorized,
                "invalid or expired refresh token"@,
            ),
        }),
{
    match row {
        Some(t) => Ok(t),
        None => Err(unauthorized("invalid or expired refresh token")),
    }
}

/// The client id and secret that an `Authorization` header carries, or the
/// message of the `Unauthorized` error: the header must be `Basic ` and
/// standard base64 of UTF-8 text `id:secret`, split at the first `:`.
pub open spec fn basic_credentials(header: Option<&str>) -> Result<
    (Seq<char>, Seq<char>),
    Seq<char>,
> {
    match header {
        None => Err("missing authorization header"@),
        Some(h) => if !has_prefix(h@, "Basic "@) {
            Err("expected Basic auth"@)
        } else {
            match standard_decoded(h@.skip(6)) {
                None => Err("invalid base64"@),
                Some(bytes) => if !valid_utf8(bytes) {
                    Err("invalid utf8"@)
                } else {
                    let s = decode_utf8(bytes);
                    let i = first_pos(s, ':');
                    if i < 0 {
                        Err("malformed credentials"@)
                    } else {
                        Ok((s.take(i), s.skip(i + 1)))
                    }
                }
            }
        },
    }
}

/// The `Authorization` value a client sends: `Basic ` and the standard
/// base64 of the UTF-8 bytes of `id:secret`.
pub open spec fn basic_header(id: Seq<char>, secret: Seq<char>) -> Seq<char> {
    "Basic "@ + b64_standard(encode_utf8(id + seq![':'] + secret))
}

proof fn lemma_basic_header_parts(id: Seq<char>, secret: Seq<char>)
    requires
        !id.contains(':'),
    ensures
        has_prefix(basic_header(id, secret), "Basic "@),
        basic_header(id, secret).skip(6) == b64_standard(encode_utf8(id + seq![':'] + secret)),
        valid_utf8(encode_utf8(id + seq![':'] + secret)),
        decode_utf8(encode_utf8(id + seq![':'] + secret)) == id + seq![':'] + secret,
        first_pos(id + seq![':'] + secret, ':') == id.len(),
        (id + seq![':'] + secret).take(id.len() as int) == id,
        (id + seq![':'] + secret).skip(id.len() as int + 1) == secret,
{
    reveal_strlit("Basic ");
    let h = basic_header(id, secret);
    assert(h.take(6) =~= "Basic "@);
    assert(h.skip(6) =~= b64_standard(encode_utf8(id + seq![':'] + secret)));
    encode_utf8_valid_utf8(id + seq![':'] + secret);
    encode_utf8_decode_utf8(id + seq![':'] + secret);
    let s = id + seq![':'] + secret;
    assert(s[id.len() as int] == ':');
    assert forall|j: int| 0 <= j < id.len() implies s[j] != ':' by {
        assert(s[j] == id[j]);
    }
    assert(is_first_pos(s, ':', id.len() as int));
    lemma_first_pos_unique(s, ':', id.len() as int);
    assert(s.take(id.len() as int) =~= id);
    assert(s.skip(id.len() as int + 1) =~= secret);
}

/// Parses an HTTP Basic `Authorization` header into (client id, secret).
pub fn parsebasic(header: Option<&str>) -> (r: Result<(String, String), AppError>)
    ensures
        (match basic_credentials(header) {
            Ok(p) => r matches Ok(q) && q.0@ == p.0 && q.1@ == p.1,
            Err(m) => r matches Err(e) && e@ == (ErrorKind::Unauthorized, m),
        }),
        header matches Some(h) ==> forall|id: Seq<char>, secret: Seq<char>|
            #[trigger] basic_header(id, secret) == h@ && !id.contains(':') ==> (r matches Ok(q)
                && q.0@ == id && q.1@ == secret),
{
    proof {
        reveal_strlit("Basic ");
    }
    let h = match header {
        Some(h) => h,
        None => {
            return Err(unauthorized("missing authorization header"));
        },
    };
    let v = chars_of(h);
    let prefix = chars_of("Basic ");
    if !starts_with_chars(&v, &prefix) {
        proof {
            assert forall|id: Seq<char>, secret: Seq<char>|
                #[trigger] basic_header(id, secret) == h@ && !id.contains(':') implies false by {
                lemma_basic_header_parts(id, secret);
            }
        }
        return Err(unauthorized("expected Basic auth"));
    }
    let encoded = string_of_range(&v, 6, v.len());
    assert(encoded@ == h@.skip(6));
    let decoded = match b64_standard_decode(encoded.as_str()) {
        Ok(d) => d,
        Err(_) => {
            proof {
                assert forall|id: Seq<char>, secret: Seq<char>|
                    #[trigger] basic_header(id, secret) == h@ && !id.contains(':') implies false by {
                    lemma_basic_header_parts(id, secret);
                    assert(b64_standard(encode_utf8(id + seq![':'] + secret)) == encoded@);
                }
            }
            return Err(unauthorized("invalid base64"));
        },
    };
    let ghost bytes = decoded@;
    let pair = match utf8_string(decoded) {
        Some(s) => s,
        None => {
            proof {
                assert forall|id: Seq<char>, secret: Seq<char>|
                    #[trigger] basic_header(id, secret) == h@ && !id.contains(':') implies false by {
                    lemma_basic_header_parts(id, secret);
                    assert(b64_standard(encode_utf8(id + seq![':'] + secret)) == encoded@);
                }
            }
            return Err(unauthorized("invalid utf8"));
        },
    };
    let pv = chars_of(pair.as_str());
    let i = match find_char(&pv, ':') {
        Some(i) => i,
        None => {
            proof {
                assert forall|id: Seq<char>, secret: Seq<char>|
                    #[trigger] basic_header(id, secret) == h@ && !id.contains(':') implies false by {
                    lemma_basic_header_parts(id, secret);
                    assert(b64_standard(encode_utf8(id + seq![':'] + secret)) == encoded@);
                    assert(pv@ == id + seq![':'] + secret);
                    assert(pv@[id.len() as int] == ':');
                }
            }
            return Err(unauthorized("malformed credentials"));
        },
    };
    let id = string_of_range(&pv, 0, i);
    let secret = string_of_range(&pv, i + 1, pv.len());
    assert(pv@.subrange(0, i as int) == pv@.take(i as int));
    assert(pv@.subrange(i + 1, pv@.len() as int) == pv@.skip(i + 1));
    proof {
        assert forall|cid: Seq<char>, csecret: Seq<char>|
            #[trigger] basic_header(cid, csecret) == h@ && !cid.contains(':') implies id@ == cid
            && secret@ == csecret by {
            lemma_basic_header_parts(cid, csecret);
            assert(b64_standard(encode_utf8(cid + seq![':'] + csecret)) == encoded@);
            assert(pv@ == cid + seq![':'] + csecret);
        }
    }
    Ok((id, secret))
}

/// The client must be registered and its secret must verify.
pub open spec fn client_verdict(client: Option<&Client>, secret: Seq<char>) -> Verdict {
    match client {
        None => Verdict::Refuse(ErrorKind::Unauthorized, "invalid client"@),
        Some(c) => password_verdict(
            secret,
            c.secrethash@,
            Verdict::Refuse(ErrorKind::Unauthorized, "invalid client credentials"@),
        ),
    }
}

/// Authenticates the client of an exchange.
pub fn check_client(client: Option<&Client>, secret: &str) -> (r: Result<(), AppError>)
    ensures
        answers(r, client_verdict(client, secret@)),
{
    let c = match client {
        Some(c) => c,
        None => {
            return Err(unauthorized("invalid client"));
        },
    };
    if !verifypw(secret, c.secrethash.as_str())? {
        return Err(unauthorized("invalid client credentials"));
    }
    Ok(())
}

/// Only the `authorization_code` grant is supported.
pub fn check_grant_type(grant_type: &str) -> (r: Result<(), AppError>)
    ensures
        grant_type@ == "authorization_code"@ ==> r is Ok,
        grant_type@ != "authorization_code"@ ==> (r matches Err(e) && e@ == (
            ErrorKind::BadRequest,
            "unsupported grant_type"@,
        )),
{
    if !str_eq(grant_type, "authorization_code") {
        return Err(bad_request("unsupported grant_type"));
    }
    Ok(())
}

/// An authorization code is redeemed only when it was found unused and
/// unexpired (and marked used), was issued to this client for this
/// redirect URI, and the verifier's S256 challenge is the one it was issued
/// with.
pub open spec fn code_verdict(
    code: Option<&AuthCode>,
    clientid: Seq<char>,
    redirect_uri: Seq<char>,
    verifier: Seq<char>,
) -> Verdict {
    match code {
        None => Verdict::Refuse(ErrorKind::BadRequest, "invalid or expired code"@),
        Some(c) => if c.clientid@ != clientid {
            Verdict::Refuse(ErrorKind::BadRequest, "code was issued to a different client"@)
        } else if c.redirecturi@ != redirect_uri {
            Verdict::Refuse(ErrorKind::BadRequest, "redirect_uri mismatch"@)
        } else if s256_challenge(verifier) != c.codechallenge@ {
            Verdict::Refuse(ErrorKind::BadRequest, "PKCE verification failed"@)
        } else {
            Verdict::Pass
        },
    }
}

/// Checks the redeemed code against the client, redirect URI and verifier.
pub fn check_code(code: Option<&AuthCode>, clientid: &str, redirect_uri: &str, verifier: &str) -> (r:
    Result<(), AppError>)
    ensures
        answers(r, code_verdict(code, clientid@, redirect_uri@, verifier@)),
{
    let c = match code {
        Some(c) => c,
        None => {
            return Err(bad_request("invalid or expired code"));
        },
    };
    if !str_eq(c.clientid.as_str(), clientid) {
        return Err(bad_request("code was issued to a different client"));
    }
    if !str_eq(c.redirecturi.as_str(), redirect_uri) {
        return Err(bad_request("redirect_uri mismatch"));
    }
    let challenge = pkcechallenge(verifier);
    let a = chars_of(challenge.as_str());
    let b = chars_of(c.codechallenge.as_str());
    if !chars_eq(&a, &b) {
        return Err(bad_request("PKCE verification failed"));
    }
    Ok(())
}

/// A code issued with the S256 challenge of a verifier is redeemed by the
/// client it was issued to, with its redirect URI and that verifier; with
/// a verifier of another challenge it is refused.
pub proof fn law_pkce_code_redeemable(code: AuthCode, verifier: Seq<char>, other: Seq<char>)
    requires
        code.codechallenge@ == s256_challenge(verifier),
        s256_challenge(other) != s256_challenge(verifier),
    ensures
        code_verdict(Some(&code), code.clientid@, code.redirecturi@, verifier) == Verdict::Pass,
        code_verdict(Some(&code), code.clientid@, code.redirecturi@, other) == Verdict::Refuse(
            ErrorKind::BadRequest,
            "PKCE verification failed"@,
        ),
{
}

} // verus!
