//! Errors of the authorization server and how each one is answered.
use vstd::prelude::*;

verus! {

/// The variant of an [`AppError`], without its message.
#[derive(PartialEq, Eq, Structural, Clone, Copy, Debug)]
pub enum ErrorKind {
    BadRequest,
    Unauthorized,
    Forbidden,
    Conflict,
    TooManyRequests,
    Internal,
}

/// An error of a server route; the message is shown to the caller except
/// for `Internal`, whose message is only logged.
#[derive(Debug)]
pub enum AppError {
    BadRequest(String),
    Unauthorized(String),
    Forbidden(String),
    Conflict(String),
    TooManyRequests,
    Internal(String),
}

impl View for AppError {
    /// The variant and the message it carries (empty for `TooManyRequests`).
    type V = (ErrorKind, Seq<char>);

    open spec fn view(&self) -> (ErrorKind, Seq<char>) {
        match self {
            AppError::BadRequest(m) => (ErrorKind::BadRequest, m@),
            AppError::Unauthorized(m) => (ErrorKind::Unauthorized, m@),
            AppError::Forbidden(m) => (ErrorKind::Forbidden, m@),
            AppError::Conflict(m) => (ErrorKind::Conflict, m@),
            AppError::TooManyRequests => (ErrorKind::TooManyRequests, Seq::empty()),
            AppError::Internal(m) => (ErrorKind::Internal, m@),
        }
    }
}

/// HTTP status of each kind of error.
pub open spec fn spec_status(k: ErrorKind) -> u16 {
    match k {
        ErrorKind::BadRequest => 400,
        ErrorKind::Unauthorized => 401,
        ErrorKind::Forbidden => 403,
        ErrorKind::Conflict => 409,
        ErrorKind::TooManyRequests => 429,
        ErrorKind::Internal => 500,
    }
}

/// The `error` field of the JSON body for each kind of error.
pub open spec fn spec_code(k: ErrorKind) -> Seq<char> {
    match k {
        ErrorKind::BadRequest => "bad_request"@,
        ErrorKind::Unauthorized => "unauthorized"@,
        ErrorKind::Forbidden => "forbidden"@,
        ErrorKind::Conflict => "conflict"@,
        ErrorKind::TooManyRequests => "too_many_requests"@,
        ErrorKind::Internal => "internal"@,
    }
}

/// The `message` field of the JSON body: the error's own message, except
/// for rate limiting and internal errors, which get fixed texts.
pub open spec fn spec_public_message(e: (ErrorKind, Seq<char>)) -> Seq<char> {
    match e.0 {
        ErrorKind::TooManyRequests => "rate limit exceeded"@,
        ErrorKind::Internal => "something went wrong"@,
        _ => e.1,
    }
}

pub fn bad_request(msg: &str) -> (e: AppError)
    ensures
        e@ == (ErrorKind::BadRequest, msg@),
{
    AppError::BadRequest(msg.to_owned())
}

pub fn unauthorized(msg: &str) -> (e: AppError)
    ensures
        e@ == (ErrorKind::Unauthorized, msg@),
{
    AppError::Unauthorized(msg.to_owned())
}

pub fn forbidden(msg: &str) -> (e: AppError)
    ensures
        e@ == (ErrorKind::Forbidden, msg@),
{
    AppError::Forbidden(msg.to_owned())
}

pub fn conflict(msg: &str) -> (e: AppError)
    ensures
        e@ == (ErrorKind::Conflict, msg@),
{
    AppError::Conflict(msg.to_owned())
}

pub fn internal(msg: String) -> (e: AppError)
    ensures
        e@ == (ErrorKind::Internal, msg@),
{
    AppError::Internal(msg)
}

impl AppError {
    pub fn kind(&self) -> (k: ErrorKind)
        ensures
            k == self@.0,
    {
        match self {
            AppError::BadRequest(_) => ErrorKind::BadRequest,
            AppError::Unauthorized(_) => ErrorKind::Unauthorized,
            AppError::Forbidden(_) => ErrorKind::Forbidden,
            AppError::Conflict(_) => ErrorKind::Conflict,
            AppError::TooManyRequests => ErrorKind::TooManyRequests,
            AppError::Internal(_) => ErrorKind::Internal,
        }
    }

    /// The HTTP status, the `error` code and the `message` of the JSON body
    /// that answers this error.
    pub fn response_parts(&self) -> (r: (u16, String, String))
        ensures
            r.0 == spec_status(self@.0),
            r.1@ == spec_code(self@.0),
            r.2@ == spec_public_message(self@),
    {
        proof {
            reveal_strlit("bad_request");
            reveal_strlit("unauthorized");
            reveal_strlit("forbidden");
            reveal_strlit("conflict");
            reveal_strlit("too_many_requests");
            reveal_strlit("internal");
            reveal_strlit("rate limit exceeded");
            reveal_strlit("something went wrong");
        }
        match self {
            AppError::BadRequest(m) => (400, "bad_request".to_owned(), m.clone()),
            AppError::Unauthorized(m) => (401, "unauthorized".to_owned(), m.clone()),
            AppError::Forbidden(m) => (403, "forbidden".to_owned(), m.clone()),
            AppError::Conflict(m) => (409, "conflict".to_owned(), m.clone()),
            AppError::TooManyRequests => (
                429,
                "too_many_requests".to_owned(),
                "rate limit exceeded".to_owned(),
            ),
            AppError::Internal(_) => (
                500,
                "internal".to_owned(),
                "something went wrong".to_owned(),
            ),
        }
    }
}

/// What a check answers: let the request through, refuse it with a given
/// error, or fail internally (a stored hash that cannot be read).
pub enum Verdict {
    Pass,
    Refuse(ErrorKind, Seq<char>),
    Broken,
}

/// `r` is the answer `v` describes.
pub open spec fn answers<T>(r: Result<T, AppError>, v: Verdict) -> bool {
    match v {
        Verdict::Pass => r is Ok,
        Verdict::Refuse(k, m) => r matches Err(e) && e@ == (k, m),
        Verdict::Broken => r matches Err(e) && e@.0 == ErrorKind::Internal,
    }
}

} // verus!
