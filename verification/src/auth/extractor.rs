//! How a request's access token is found and its claims admitted.
use vstd::prelude::*;

use crate::auth::claims::{Claims, Faculty, PersonType, Student};
use crate::auth::cookies::{cookie_lookup, tokenfrombearerparts, tokenfromcookie};
use crate::auth::error::{auth_forbidden, auth_unauthorized, AuthError};
use crate::text::has_prefix;

verus! {

/// The access token of a request: the `Authorization: Bearer` token, or
/// else the `ocas_access` cookie.
pub open spec fn request_token(auth: Option<&str>, cookie: Option<&str>) -> Option<Seq<char>> {
    match auth {
        Some(h) if has_prefix(h@, "Bearer "@) => Some(h@.skip(7)),
        _ => match cookie {
            Some(c) => cookie_lookup(c@, "ocas_access="@),
            None => None,
        },
    }
}

/// Finds the access token of a request, or refuses it without one.
pub fn token_of_request(auth: Option<&str>, cookie: Option<&str>) -> (r: Result<String, AuthError>)
    ensures
        (match request_token(auth, cookie) {
            Some(t) => r matches Ok(x) && x@ == t,
            None => r matches Err(e) && e@ == (401u16, "no access token"@),
        }),
{
    match tokenfrombearerparts(auth) {
        Some(t) => Ok(t),
        None => match tokenfromcookie(cookie) {
            Some(t) => Ok(t),
            None => Err(auth_unauthorized("no access token")),
        },
    }
}

/// The refusal when the application has not installed the client.
pub fn not_configured() -> (e: AuthError)
    ensures
        e@ == (401u16, "ocas client not configured"@),
{
    auth_unauthorized("ocas client not configured")
}

/// A verified token is refused when the blocklist is in use and lists its
/// id (`listed` is only looked up when the blocklist is in use).
pub fn check_revocation(blocklist_enabled: bool, listed: bool) -> (r: Result<(), AuthError>)
    ensures
        blocklist_enabled && listed ==> (r matches Err(e) && e@ == (401u16, "token revoked"@)),
        !(blocklist_enabled && listed) ==> r is Ok,
{
    if blocklist_enabled && listed {
        return Err(auth_unauthorized("token revoked"));
    }
    Ok(())
}

/// Admits only students.
pub fn require_student(claims: Claims) -> (r: Result<Student, AuthError>)
    ensures
        claims.persontype == PersonType::Student ==> (r matches Ok(s) && s.0 == claims),
        claims.persontype != PersonType::Student ==> (r matches Err(e) && e@ == (
            403u16,
            "students only"@,
        )),
{
    if claims.persontype != PersonType::Student {
        return Err(auth_forbidden("students only"));
    }
    Ok(Student(claims))
}

/// Admits only faculty.
pub fn require_faculty(claims: Claims) -> (r: Result<Faculty, AuthError>)
    ensures
        claims.persontype == PersonType::Faculty ==> (r matches Ok(s) && s.0 == claims),
        claims.persontype != PersonType::Faculty ==> (r matches Err(e) && e@ == (
            403u16,
            "faculty only"@,
        )),
{
    if claims.persontype != PersonType::Faculty {
        return Err(auth_forbidden("faculty only"));
    }
    Ok(Faculty(claims))
}

/// The refusal when the application's role loader fails.
pub fn role_load_failed() -> (e: AuthError)
    ensures
        e@ == (401u16, "failed to load role"@),
{
    auth_unauthorized("failed to load role")
}

} // verus!
