//! `POST /register`: creating an account from an institute email address.
use vstd::prelude::*;
use vstd::utf8::encode_utf8;

use crate::error::{bad_request, AppError, ErrorKind};
use crate::extract::{email_domain, parseemail, spec_parse_email, EmailInfo, EmailInfoView};
use crate::hash::{hashable, hashed_from, hashpw};
use crate::text::{normalize_email, normalized_email};

verus! {

/// The body of a registration.
pub struct RegisterBody {
    pub email: String,
    pub password: String,
    pub branch: Option<String>,
}

/// An account about to be stored.
pub struct Registration {
    pub email: String,
    pub info: EmailInfo,
    pub passhash: String,
}

/// How a registration is refused, before the password is hashed: a
/// password under 8 bytes, an address that is not an institute one, or a
/// student with a roll number but no branch. `None` when it may go on.
pub open spec fn registration_refusal(
    email: Seq<char>,
    password: Seq<char>,
    has_branch: bool,
) -> Option<Seq<char>> {
    if encode_utf8(password).len() < 8 {
        Some("password must be at least 8 characters"@)
    } else {
        match spec_parse_email(normalized_email(email)) {
            Err(m) => Some(m),
            Ok(info) => if info.usertype == "student"@ && info.rollnum is Some && !has_branch {
                Some("branch is required for students"@)
            } else {
                None
            },
        }
    }
}

/// Checks a registration and prepares the account: the address trimmed and
/// lowercased, what it says about the user, and the password's hash. A
/// registration that is not refused succeeds, unless the password is too
/// long for Argon2.
pub fn prepare_registration(body: &RegisterBody) -> (r: Result<Registration, AppError>)
    ensures
        (match registration_refusal(body.email@, body.password@, body.branch is Some) {
            Some(m) => r matches Err(e) && e@ == (ErrorKind::BadRequest, m),
            None => match r {
                Ok(reg) => reg.email@ == normalized_email(body.email@) && spec_parse_email(
                    reg.email@,
                ) == Ok::<EmailInfoView, Seq<char>>(reg.info@) && hashed_from(
                    body.password@,
                    reg.passhash@,
                ),
                Err(e) => e@.0 == ErrorKind::Internal && !hashable(body.password@),
            },
        }),
{
    let email = normalize_email(body.email.as_str());
    if !crate::text::utf8_len_at_least(body.password.as_str(), 8) {
        return Err(bad_request("password must be at least 8 characters"));
    }
    let info = parseemail(email.as_str())?;
    let is_student = crate::text::str_eq(info.usertype.as_str(), "student");
    if is_student && info.rollnum.is_some() && body.branch.is_none() {
        return Err(bad_request("branch is required for students"));
    }
    let passhash = hashpw(body.password.as_str())?;
    Ok(Registration { email, info, passhash })
}

/// A branch is asked only of students with a roll number: an account whose
/// address gives no roll number (faculty and research students), or that
/// names a branch, is not refused for want of one; with a valid address and
/// a password of at least 8 bytes it is not refused at all.
pub proof fn law_branch_needed_only_with_rollnum(email: Seq<char>, password: Seq<char>, has_branch: bool)
    requires
        encode_utf8(password).len() >= 8,
        spec_parse_email(normalized_email(email)) is Ok,
        spec_parse_email(normalized_email(email))->Ok_0.rollnum is None || has_branch,
    ensures
        registration_refusal(email, password, has_branch) is None,
{
}

/// A research student (an address at `research.iiit.ac.in`) registers
/// without a branch whenever the password has at least 8 bytes; only a
/// `students.iiit.ac.in` address is ever refused for a missing branch.
pub proof fn law_research_students_need_no_branch(email: Seq<char>, password: Seq<char>, has_branch: bool)
    ensures
        encode_utf8(password).len() >= 8 && normalized_email(email).contains('@') && email_domain(
            normalized_email(email),
        ) == "research.iiit.ac.in"@ ==> registration_refusal(email, password, has_branch) is None,
        registration_refusal(email, password, has_branch) == Some("branch is required for students"@)
            ==> !has_branch && email_domain(normalized_email(email)) == "students.iiit.ac.in"@,
{
    reveal_strlit("students.iiit.ac.in");
    reveal_strlit("research.iiit.ac.in");
    reveal_strlit("branch is required for students");
    reveal_strlit("password must be at least 8 characters");
    reveal_strlit("invalid email");
    reveal_strlit("cannot parse batch from roll number");
    reveal_strlit("email must be an iiit.ac.in address");
    assert("students.iiit.ac.in"@[0] == 's');
    assert("research.iiit.ac.in"@[0] == 'r');
    assert("students.iiit.ac.in"@ != "research.iiit.ac.in"@);
    let b = "branch is required for students"@;
    assert(b.len() == 31);
    assert("password must be at least 8 characters"@.len() != 31);
    assert("invalid email"@.len() != 31);
    assert("cannot parse batch from roll number"@.len() != 31);
    assert("email must be an iiit.ac.in address"@.len() != 31);
}

/// A password of fewer than 8 bytes (UTF-8) is refused before anything
/// else, and one of 8 bytes or more is never refused for its length, however
/// few characters it has.
pub proof fn law_password_needs_eight_bytes(email: Seq<char>, password: Seq<char>, has_branch: bool)
    ensures
        encode_utf8(password).len() < 8 ==> registration_refusal(email, password, has_branch) == Some(
            "password must be at least 8 characters"@,
        ),
        encode_utf8(password).len() >= 8 ==> registration_refusal(email, password, has_branch)
            != Some("password must be at least 8 characters"@),
{
    reveal_strlit("password must be at least 8 characters");
    reveal_strlit("branch is required for students");
    reveal_strlit("invalid email");
    reveal_strlit("cannot parse batch from roll number");
    reveal_strlit("email must be an iiit.ac.in address");
    assert("password must be at least 8 characters"@.len() == 38);
    assert("branch is required for students"@.len() != 38);
    assert("invalid email"@.len() != 38);
    assert("cannot parse batch from roll number"@.len() != 38);
    assert("email must be an iiit.ac.in address"@.len() != 38);
}

} // verus!
