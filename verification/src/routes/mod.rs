//! The decisions of the server's routes; the routes themselves read and
//! write the database and the HTTP exchange.
pub mod account;
pub mod login;
pub mod token;
pub mod authorize;
pub mod clients;
pub mod register;
pub mod flow;
