//! The client side: what an application that signs its users in through
//! the authorization server decides about tokens, cookies and callbacks.
pub mod cookies;
pub mod claims;
pub mod error;
pub mod config;
pub mod extractor;
pub mod caches;
pub mod router;
pub mod mock;
pub mod refresh;
