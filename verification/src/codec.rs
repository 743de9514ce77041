//! Text encodings of bytes: lowercase hex, base64 (standard alphabet with
//! padding, and URL-safe alphabet without), and UTF-8.
use vstd::prelude::*;
use vstd::utf8::{decode_utf8, encode_utf8, valid_utf8};

use base64::engine::general_purpose::{STANDARD, URL_SAFE_NO_PAD};
use base64::Engine;

verus! {

/// The lowercase hex digit for `v` (0 to 15).
pub open spec fn hex_digit(v: int) -> char {
    if v < 10 {
        ('0' as int + v) as char
    } else {
        ('a' as int + v - 10) as char
    }
}

/// Lowercase hex of `b`: two digits per byte, high nibble first.
pub open spec fn hex_lower(b: Seq<u8>) -> Seq<char>
    decreases b.len(),
{
    if b.len() == 0 {
        Seq::empty()
    } else {
        seq![hex_digit((b[0] as int) / 16), hex_digit((b[0] as int) % 16)] + hex_lower(b.drop_first())
    }
}

/// The base64 digit for `v` (0 to 63): `+` and `/` in the standard
/// alphabet, `-` and `_` in the URL-safe one.
pub open spec fn b64_digit(v: int, url: bool) -> char {
    if v < 26 {
        ('A' as int + v) as char
    } else if v < 52 {
        ('a' as int + v - 26) as char
    } else if v < 62 {
        ('0' as int + v - 52) as char
    } else if v == 62 {
        if url {
            '-'
        } else {
            '+'
        }
    } else {
        if url {
            '_'
        } else {
            '/'
        }
    }
}

/// Base64 of `b` (RFC 4648): each three bytes become four digits; a last
/// group of one or two bytes becomes two or three digits, followed by `=`
/// up to four when `pad`.
pub open spec fn b64_encode(b: Seq<u8>, url: bool, pad: bool) -> Seq<char>
    decreases b.len(),
{
    if b.len() == 0 {
        Seq::empty()
    } else if b.len() == 1 {
        seq![b64_digit((b[0] as int) / 4, url), b64_digit(((b[0] as int) % 4) * 16, url)] + (if pad {
            seq!['=', '=']
        } else {
            Seq::empty()
        })
    } else if b.len() == 2 {
        seq![
            b64_digit((b[0] as int) / 4, url),
            b64_digit(((b[0] as int) % 4) * 16 + (b[1] as int) / 16, url),
            b64_digit(((b[1] as int) % 16) * 4, url),
        ] + (if pad {
            seq!['=']
        } else {
            Seq::empty()
        })
    } else {
        seq![
            b64_digit((b[0] as int) / 4, url),
            b64_digit(((b[0] as int) % 4) * 16 + (b[1] as int) / 16, url),
            b64_digit(((b[1] as int) % 16) * 4 + (b[2] as int) / 64, url),
            b64_digit((b[2] as int) % 64, url),
        ] + b64_encode(b.skip(3), url, pad)
    }
}

/// Standard base64 with padding, as `base64`'s `STANDARD` engine writes it.
pub open spec fn b64_standard(b: Seq<u8>) -> Seq<char> {
    b64_encode(b, false, true)
}

/// URL-safe base64 without padding, as `base64`'s `URL_SAFE_NO_PAD` engine
/// writes it.
pub open spec fn b64_url(b: Seq<u8>) -> Seq<char> {
    b64_encode(b, true, false)
}

/// Decoded bytes, or the decoder's error message.
pub type DecodeResult = Result<Vec<u8>, String>;

/// What `STANDARD.decode` accepts and gives for a text: `None` where it
/// returns an error.
pub uninterp spec fn standard_decoded(text: Seq<char>) -> Option<Seq<u8>>;

/// What `URL_SAFE_NO_PAD.decode` accepts and gives for a text: `None`
/// where it returns an error.
pub uninterp spec fn url_decoded(text: Seq<char>) -> Option<Seq<u8>>;

/// `hex::encode`: lowercase hex, two digits per byte.
#[verifier::external_body]
pub(crate) fn hex_encode(data: &[u8]) -> (r: String)
    ensures
        r@ == hex_lower(data@),
{
    hex::encode(data)
}

/// `URL_SAFE_NO_PAD.encode` of `base64`.
#[verifier::external_body]
pub(crate) fn b64_url_encode(data: &[u8]) -> (r: String)
    ensures
        r@ == b64_url(data@),
{
    URL_SAFE_NO_PAD.encode(data)
}

/// `STANDARD.encode` of `base64`.
#[verifier::external_body]
pub(crate) fn b64_standard_encode(data: &[u8]) -> (r: String)
    ensures
        r@ == b64_standard(data@),
{
    STANDARD.encode(data)
}

/// `STANDARD.decode` of `base64`, its error reduced to its message. The
/// contract names the outcome and adds that the encoder's own output is
/// read back to the bytes it came from.
#[verifier::external_body]
pub(crate) fn b64_standard_decode(text: &str) -> (r: DecodeResult)
    ensures
        (match r {
            Ok(d) => standard_decoded(text@) == Some(d@),
            Err(_) => standard_decoded(text@) is None,
        }),
        r is Ok || forall|b: Seq<u8>| #[trigger] b64_standard(b) != text@,
        r matches Ok(d) ==> forall|b: Seq<u8>| #[trigger] b64_standard(b) == text@ ==> d@ == b,
{
    STANDARD.decode(text).map_err(|e| e.to_string())
}

/// `URL_SAFE_NO_PAD.decode` of `base64`, its error reduced to its message.
/// The contract names the outcome and adds that the encoder's own output is
/// read back to the bytes it came from.
#[verifier::external_body]
pub(crate) fn b64_url_decode(text: &str) -> (r: DecodeResult)
    ensures
        (match r {
            Ok(d) => url_decoded(text@) == Some(d@),
            Err(_) => url_decoded(text@) is None,
        }),
        r is Ok || forall|b: Seq<u8>| #[trigger] b64_url(b) != text@,
        r matches Ok(d) ==> forall|b: Seq<u8>| #[trigger] b64_url(b) == text@ ==> d@ == b,
{
    URL_SAFE_NO_PAD.decode(text).map_err(|e| e.to_string())
}

/// `String::from_utf8`: the text that the bytes encode, when they are valid
/// UTF-8.
#[verifier::external_body]
pub(crate) fn utf8_string(bytes: Vec<u8>) -> (r: Option<String>)
    ensures
        r is Some <==> valid_utf8(bytes@),
        r matches Some(s) ==> s@ == decode_utf8(bytes@),
{
    String::from_utf8(bytes).ok()
}

/// The UTF-8 bytes of `s`.
pub fn utf8_bytes(s: &str) -> (r: &[u8])
    ensures
        r@ == encode_utf8(s@),
{
    s.as_bytes()
}

} // verus!
