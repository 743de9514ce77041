//! An OAuth2 / OpenID-style authorization server for institute accounts,
//! and the client side that applications use to sign their users in
//! through it: the verified decisions, formats and data structures.
use vstd::prelude::*;

pub mod auth;
pub mod blocklist;
pub mod codec;
pub mod config;
pub mod decimal;
pub mod error;
pub mod extract;
pub mod hash;
pub mod jwt;
pub mod models;
pub mod ratelimit;
pub mod routes;
pub mod text;

verus! {

} // verus!
