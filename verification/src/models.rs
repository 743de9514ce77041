//! Rows of the server's tables, as plain values. Times are seconds since
//! the Unix epoch; ids are the 128-bit values of their UUIDs.
use vstd::prelude::*;

verus! {

/// A registered account.
pub struct User {
    pub id: u128,
    pub email: String,
    pub rollnum: Option<String>,
    pub passhash: String,
    pub batch: Option<i32>,
    pub branch: Option<String>,
    /// `student` or `faculty`.
    pub usertype: String,
    pub verified: bool,
    pub banned: bool,
    pub createdat: i64,
}

/// A stored refresh token (only its hash is kept).
pub struct RefreshToken {
    pub id: u128,
    pub tokenhash: String,
    pub userid: u128,
    pub clientid: Option<String>,
    pub expiresat: i64,
    pub createdat: i64,
}

/// A registered OAuth2 client.
pub struct Client {
    pub clientid: String,
    pub secrethash: String,
    pub redirecturis: Vec<String>,
    pub name: String,
    pub createdat: i64,
}

/// An issued authorization code.
pub struct AuthCode {
    pub code: String,
    pub clientid: String,
    pub userid: u128,
    pub redirecturi: String,
    pub codechallenge: String,
    pub expiresat: i64,
    pub used: bool,
}

} // verus!
