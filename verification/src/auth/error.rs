//! Errors with which an application refuses a request it cannot
//! authenticate or authorize.
use vstd::prelude::*;

verus! {

/// A refused request: 401 or 403, with a message.
#[derive(Debug)]
pub enum AuthError {
    Unauthorized(String),
    Forbidden(String),
}

impl View for AuthError {
    /// The status and the message.
    type V = (u16, Seq<char>);

    open spec fn view(&self) -> (u16, Seq<char>) {
        match self {
            AuthError::Unauthorized(m) => (401, m@),
            AuthError::Forbidden(m) => (403, m@),
        }
    }
}

pub fn auth_unauthorized(msg: &str) -> (e: AuthError)
    ensures
        e@ == (401u16, msg@),
{
    AuthError::Unauthorized(msg.to_owned())
}

pub fn auth_forbidden(msg: &str) -> (e: AuthError)
    ensures
        e@ == (403u16, msg@),
{
    AuthError::Forbidden(msg.to_owned())
}

impl AuthError {
    /// The HTTP status, the `error` code and the `message` of the JSON body
    /// answering this error.
    pub fn response_parts(&self) -> (r: (u16, String, String))
        ensures
            r.0 == self@.0,
            r.1@ == (if self@.0 == 401 {
                "unauthorized"@
            } else {
                "forbidden"@
            }),
            r.2@ == self@.1,
    {
        match self {
            AuthError::Unauthorized(m) => (401, "unauthorized".to_owned(), m.clone()),
            AuthError::Forbidden(m) => (403, "forbidden".to_owned(), m.clone()),
        }
    }
}

} // verus!
