//! Reading who a user is from an institute email address.
use vstd::prelude::*;

use crate::decimal::{parse_i32, spec_parse_i32};
use crate::error::{bad_request, AppError, ErrorKind};
use crate::text::{
    after_last, before_first, chars_eq_str, chars_of, find_char, rfind_char, slice_chars,
    string_of,
};

verus! {

/// What an email address says about its owner.
pub struct EmailInfo {
    pub usertype: String,
    pub rollnum: Option<String>,
    pub batch: Option<i32>,
}

/// [`EmailInfo`] as plain values.
pub struct EmailInfoView {
    pub usertype: Seq<char>,
    pub rollnum: Option<Seq<char>>,
    pub batch: Option<i32>,
}

impl View for EmailInfo {
    type V = EmailInfoView;

    open spec fn view(&self) -> EmailInfoView {
        EmailInfoView {
            usertype: self.usertype@,
            rollnum: match self.rollnum {
                Some(r) => Some(r@),
                None => None,
            },
            batch: self.batch,
        }
    }
}

/// The domain: everything after the last `@`.
pub open spec fn email_domain(email: Seq<char>) -> Seq<char> {
    after_last(email, '@')
}

/// The roll number of a student address: the last `.`-separated part of
/// what precedes the first `@`.
pub open spec fn email_rollnum(email: Seq<char>) -> Seq<char> {
    after_last(before_first(email, '@'), '.')
}

/// The batch: the first four characters of the roll number read as an `i32`.
pub open spec fn rollnum_batch(rollnum: Seq<char>) -> Option<i32> {
    if rollnum.len() >= 4 {
        spec_parse_i32(rollnum.take(4))
    } else {
        None
    }
}

/// What `parseemail` answers for `email`: the facts on success, or the
/// message of the `BadRequest` error.
pub open spec fn spec_parse_email(email: Seq<char>) -> Result<EmailInfoView, Seq<char>> {
    if !email.contains('@') {
        Err("invalid email"@)
    } else if email_domain(email) == "students.iiit.ac.in"@ {
        match rollnum_batch(email_rollnum(email)) {
            Some(b) => Ok(
                EmailInfoView {
                    usertype: "student"@,
                    rollnum: Some(email_rollnum(email)),
                    batch: Some(b),
                },
            ),
            None => Err("cannot parse batch from roll number"@),
        }
    } else if email_domain(email) == "research.iiit.ac.in"@ {
        Ok(EmailInfoView { usertype: "student"@, rollnum: None, batch: None })
    } else if email_domain(email) == "iiit.ac.in"@ {
        Ok(EmailInfoView { usertype: "faculty"@, rollnum: None, batch: None })
    } else {
        Err("email must be an iiit.ac.in address"@)
    }
}

/// Parses an institute email address: students (with roll number and batch
/// for `students.iiit.ac.in`, without for `research.iiit.ac.in`) and faculty
/// (`iiit.ac.in`); any other domain is refused.
pub fn parseemail(email: &str) -> (r: Result<EmailInfo, AppError>)
    ensures
        match spec_parse_email(email@) {
            Ok(info) => r matches Ok(i) && i@ == info,
            Err(msg) => r matches Err(e) && e@ == (ErrorKind::BadRequest, msg),
        },
{
    let v = chars_of(email);
    let at = match rfind_char(&v, '@') {
        Some(i) => i,
        None => {
            assert(!email@.contains('@'));
            return Err(bad_request("invalid email"));
        },
    };
    assert(email@.contains('@'));
    let domain = slice_chars(&v, at + 1, v.len());
    assert(domain@ == email_domain(email@));
    if chars_eq_str(&domain, "students.iiit.ac.in") {
        let first = match find_char(&v, '@') {
            Some(i) => i,
            None => {
                return Err(bad_request("invalid email"));
            },
        };
        let local = slice_chars(&v, 0, first);
        assert(local@ == before_first(email@, '@'));
        let rollnum = match rfind_char(&local, '.') {
            Some(d) => slice_chars(&local, d + 1, local.len()),
            None => {
                assert(local@.subrange(0, local@.len() as int) == local@);
                slice_chars(&local, 0, local.len())
            },
        };
        assert(rollnum@ == email_rollnum(email@));
        let batch = if rollnum.len() >= 4 {
            let head = slice_chars(&rollnum, 0, 4);
            assert(head@ == rollnum@.take(4));
            parse_i32(&head)
        } else {
            None
        };
        match batch {
            Some(b) => {
                proof {
                    reveal_strlit("student");
                }
                Ok(
                    EmailInfo {
                        usertype: "student".to_owned(),
                        rollnum: Some(string_of(&rollnum)),
                        batch: Some(b),
                    },
                )
            },
            None => Err(bad_request("cannot parse batch from roll number")),
        }
    } else if chars_eq_str(&domain, "research.iiit.ac.in") {
        Ok(EmailInfo { usertype: "student".to_owned(), rollnum: None, batch: None })
    } else if chars_eq_str(&domain, "iiit.ac.in") {
        Ok(EmailInfo { usertype: "faculty".to_owned(), rollnum: None, batch: None })
    } else {
        Err(bad_request("email must be an iiit.ac.in address"))
    }
}

} // verus!
