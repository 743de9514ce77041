//! The claims an application reads from a verified access token.
use vstd::prelude::*;

verus! {

/// Who the token's subject is.
#[derive(PartialEq, Eq, Structural, Clone, Copy, Debug)]
pub enum PersonType {
    Student,
    Faculty,
}

impl PersonType {
    /// The name used on the wire: `student` or `faculty`.
    pub fn as_str(&self) -> (r: &'static str)
        ensures
            r@ == (match self {
                PersonType::Student => "student"@,
                PersonType::Faculty => "faculty"@,
            }),
    {
        match self {
            PersonType::Student => "student",
            PersonType::Faculty => "faculty",
        }
    }
}

/// The claims of an access token.
pub struct Claims {
    pub sub: u128,
    pub rollnum: Option<String>,
    pub email: String,
    pub batch: Option<i32>,
    pub branch: Option<String>,
    pub persontype: PersonType,
    pub exp: i64,
    pub iat: i64,
    pub jti: u128,
}

/// Claims of a student.
pub struct Student(pub Claims);

impl Student {
    /// The claims.
    pub fn deref(&self) -> (r: &Claims)
        ensures
            r == &self.0,
    {
        &self.0
    }
}

/// Claims of a faculty member.
pub struct Faculty(pub Claims);

impl Faculty {
    /// The claims.
    pub fn deref(&self) -> (r: &Claims)
        ensures
            r == &self.0,
    {
        &self.0
    }
}

/// An authenticated user with claims and an application-specific role.
pub struct AuthenticatedUser<R> {
    pub claims: Claims,
    pub role: R,
}

} // verus!
