//! `POST /login`: email and password for an access and a refresh token.
use vstd::prelude::*;

use crate::hash::{gentoken, is_hex_of_bytes, token_digest};

verus! {

/// The body of a sign-in request.
pub struct LoginBody {
    pub email: String,
    pub password: String,
}

/// Generates a random 32-byte hex refresh token.
pub fn genrefresh() -> (r: String)
    ensures
        is_hex_of_bytes(r@, 32),
{
    gentoken()
}

/// SHA-256 hashes a refresh token for storage (lowercase hex).
pub fn hashtoken(token: &str) -> (r: String)
    ensures
        r@ == token_digest(token@),
{
    crate::hash::hashtoken(token)
}

} // verus!
