//! `GET`/`POST /authorize`: the OAuth2 authorization endpoint with its
//! sign-in form.
use vstd::prelude::*;

use crate::error::{answers, bad_request, AppError, ErrorKind, Verdict};
use crate::hash::{gentoken, is_hex_of_bytes, spec_verifypw, verifypw};
use crate::models::{Client, User};
use crate::routes::account::{
    account_verdict, check_account, login_verdict, token_user_verdict,
};
use crate::text::{chars_of, find_char, str_eq};

verus! {

/// Lifetime of an authorization code, in seconds (10 minutes).
pub const AUTHCODE_TTL: i64 = 600;

/// The query of `GET /authorize`.
pub struct AuthorizeParams {
    pub client_id: String,
    pub redirect_uri: String,
    pub state: String,
    pub code_challenge: String,
    pub code_challenge_method: String,
    pub response_type: String,
}

/// The form posted to `/authorize`.
pub struct AuthorizeForm {
    pub client_id: String,
    pub redirect_uri: String,
    pub state: String,
    pub code_challenge: String,
    pub code_challenge_method: String,
    pub response_type: String,
    pub email: String,
    pub password: String,
}

/// The request must ask for a code, with an S256 challenge.
pub open spec fn request_verdict(responsetype: Seq<char>, method: Seq<char>) -> Verdict {
    if responsetype != "code"@ {
        Verdict::Refuse(ErrorKind::BadRequest, "response_type must be code"@)
    } else if method != "S256"@ {
        Verdict::Refuse(ErrorKind::BadRequest, "code_challenge_method must be S256"@)
    } else {
        Verdict::Pass
    }
}

/// Checks the response type and challenge method of an authorize request.
pub fn check_request(responsetype: &str, method: &str) -> (r: Result<(), AppError>)
    ensures
        answers(r, request_verdict(responsetype@, method@)),
{
    if !str_eq(responsetype, "code") {
        return Err(bad_request("response_type must be code"));
    }
    if !str_eq(method, "S256") {
        return Err(bad_request("code_challenge_method must be S256"));
    }
    Ok(())
}

/// `uri` is one of the client's registered redirect URIs.
pub open spec fn registers(c: Client, uri: Seq<char>) -> bool {
    exists|i: int| 0 <= i < c.redirecturis@.len() && #[trigger] c.redirecturis@[i]@ == uri
}

/// The client must exist and have registered the redirect URI.
pub open spec fn redirect_verdict(client: Option<&Client>, redirecturi: Seq<char>) -> Verdict {
    match client {
        None => Verdict::Refuse(ErrorKind::BadRequest, "unknown client_id"@),
        Some(c) => if registers(*c, redirecturi) {
            Verdict::Pass
        } else {
            Verdict::Refuse(ErrorKind::BadRequest, "redirect_uri not registered"@)
        },
    }
}

/// Checks the client found for the request against its redirect URI.
pub fn check_redirect(client: Option<&Client>, redirecturi: &str) -> (r: Result<(), AppError>)
    ensures
        answers(r, redirect_verdict(client, redirecturi@)),
{
    let c = match client {
        Some(c) => c,
        None => {
            return Err(bad_request("unknown client_id"));
        },
    };
    let mut i: usize = 0;
    while i < c.redirecturis.len()
        invariant
            client == Some(c),
            i <= c.redirecturis@.len(),
            forall|j: int| 0 <= j < i ==> #[trigger] c.redirecturis@[j]@ != redirecturi@,
        decreases c.redirecturis@.len() - i,
    {
        if str_eq(c.redirecturis[i].as_str(), redirecturi) {
            assert(c.redirecturis@[i as int]@ == redirecturi@);
            return Ok(());
        }
        i += 1;
    }
    Err(bad_request("redirect_uri not registered"))
}

/// What the sign-in form does with a submission: `Ok(true)` to issue a
/// code, `Ok(false)` to show the form again with "invalid credentials"
/// (unknown email or wrong password), or the error of an unusable account.
pub open spec fn submit_outcome(user: Option<&User>, password: Seq<char>) -> Result<bool, Verdict> {
    match user {
        None => Ok(false),
        Some(u) => match account_verdict(*u) {
            Verdict::Pass => match spec_verifypw(password, u.passhash@) {
                None => Err(Verdict::Broken),
                Some(b) => Ok(b),
            },
            v => Err(v),
        },
    }
}

/// Decides a sign-in form submission for the account found for its email.
pub fn check_submit(user: Option<&User>, password: &str) -> (r: Result<bool, AppError>)
    ensures
        (match submit_outcome(user, password@) {
            Ok(b) => r == Ok::<bool, AppError>(b),
            Err(v) => answers(r, v),
        }),
{
    let u = match user {
        Some(u) => u,
        None => {
            return Ok(false);
        },
    };
    check_account(u)?;
    verifypw(password, u.passhash.as_str())
}

/// A new authorization code, issued at `now`, and the time it expires:
/// [`AUTHCODE_TTL`] seconds later.
pub fn issue_code(now: i64) -> (r: (String, i64))
    requires
        now <= i64::MAX - AUTHCODE_TTL,
    ensures
        is_hex_of_bytes(r.0@, 32),
        r.1 == now + AUTHCODE_TTL,
{
    (gentoken(), now + AUTHCODE_TTL)
}

/// Where the browser is sent with the code: the redirect URI with `code`
/// and `state` added to its query (`&` when it already has one, else `?`).
pub open spec fn location_for(redirect_uri: Seq<char>, code: Seq<char>, state: Seq<char>) -> Seq<char> {
    redirect_uri + (if redirect_uri.contains('?') {
        "&"@
    } else {
        "?"@
    }) + "code="@ + code + "&state="@ + state
}

/// The redirect location carrying the code and state back to the client.
pub fn redirect_location(redirect_uri: &str, code: &str, state: &str) -> (r: String)
    ensures
        r@ == location_for(redirect_uri@, code@, state@),
{
    let v = chars_of(redirect_uri);
    let sep = match find_char(&v, '?') {
        Some(_) => "&",
        None => "?",
    };
    let mut out = redirect_uri.to_owned();
    out.append(sep);
    out.append("code=");
    out.append(code);
    out.append("&state=");
    out.append(state);
    out
}

pub const FORM_HEAD: &'static str = "<!doctype html>\n<html>\n<head><title>ocas \u{2014} login</title></head>\n<body>\n<form method=\"post\" action=\"/authorize\">\n<h2>sign in</h2>\n";

pub const FORM_CLIENT_ID: &'static str = "\n<input type=\"hidden\" name=\"client_id\" value=\"";

pub const FORM_REDIRECT_URI: &'static str = "\">\n<input type=\"hidden\" name=\"redirect_uri\" value=\"";

pub const FORM_STATE: &'static str = "\">\n<input type=\"hidden\" name=\"state\" value=\"";

pub const FORM_CHALLENGE: &'static str = "\">\n<input type=\"hidden\" name=\"code_challenge\" value=\"";

pub const FORM_METHOD: &'static str = "\">\n<input type=\"hidden\" name=\"code_challenge_method\" value=\"";

pub const FORM_RESPONSE_TYPE: &'static str = "\">\n<input type=\"hidden\" name=\"response_type\" value=\"";

pub const FORM_TAIL: &'static str = "\">\n<input type=\"email\" name=\"email\" placeholder=\"email\" required>\n<input type=\"password\" name=\"password\" placeholder=\"password\" required>\n<button type=\"submit\">login</button>\n</form>\n</body>\n</html>";

pub const ERROR_OPEN: &'static str = "<p style=\"color:#e74c3c\">";

pub const ERROR_CLOSE: &'static str = "</p>";

/// The error paragraph of the form, empty without an error.
pub open spec fn error_html(error: Option<&str>) -> Seq<char> {
    match error {
        Some(e) => ERROR_OPEN@ + e@ + ERROR_CLOSE@,
        None => Seq::empty(),
    }
}

/// The sign-in page: the error (if any), then the request's parameters as
/// hidden fields, then email and password inputs. The values are written
/// as given.
pub open spec fn login_page(
    clientid: Seq<char>,
    redirecturi: Seq<char>,
    state: Seq<char>,
    codechallenge: Seq<char>,
    method: Seq<char>,
    responsetype: Seq<char>,
    error: Option<&str>,
) -> Seq<char> {
    FORM_HEAD@ + error_html(error) + FORM_CLIENT_ID@ + clientid + FORM_REDIRECT_URI@ + redirecturi
        + FORM_STATE@ + state + FORM_CHALLENGE@ + codechallenge + FORM_METHOD@ + method
        + FORM_RESPONSE_TYPE@ + responsetype + FORM_TAIL@
}

/// Generates the login form HTML.
pub fn loginform(
    clientid: &str,
    redirecturi: &str,
    state: &str,
    codechallenge: &str,
    method: &str,
    responsetype: &str,
    error: Option<&str>,
) -> (r: String)
    ensures
        r@ == login_page(
            clientid@,
            redirecturi@,
            state@,
            codechallenge@,
            method@,
            responsetype@,
            error,
        ),
{
    let mut out = FORM_HEAD.to_owned();
    match error {
        Some(e) => {
            out.append(ERROR_OPEN);
            out.append(e);
            out.append(ERROR_CLOSE);
        },
        None => {},
    }
    out.append(FORM_CLIENT_ID);
    out.append(clientid);
    out.append(FORM_REDIRECT_URI);
    out.append(redirecturi);
    out.append(FORM_STATE);
    out.append(state);
    out.append(FORM_CHALLENGE);
    out.append(codechallenge);
    out.append(FORM_METHOD);
    out.append(method);
    out.append(FORM_RESPONSE_TYPE);
    out.append(responsetype);
    out.append(FORM_TAIL);
    assert(out@ =~= login_page(
        clientid@,
        redirecturi@,
        state@,
        codechallenge@,
        method@,
        responsetype@,
        error,
    ));
    out
}

/// The form shown again with an error message, under status 401.
pub fn formerror(form: &AuthorizeForm, msg: &str) -> (r: (u16, String))
    ensures
        r.0 == 401,
        r.1@ == login_page(
            form.client_id@,
            form.redirect_uri@,
            form.state@,
            form.code_challenge@,
            form.code_challenge_method@,
            form.response_type@,
            Some(msg),
        ),
{
    let html = loginform(
        form.client_id.as_str(),
        form.redirect_uri.as_str(),
        form.state.as_str(),
        form.code_challenge.as_str(),
        form.code_challenge_method.as_str(),
        form.response_type.as_str(),
        Some(msg),
    );
    (401, html)
}

/// A banned account is refused everywhere it could get a token: sign-in,
/// the authorize form, and refresh or code exchange.
pub proof fn law_banned_account_gets_no_tokens(u: User, password: Seq<char>)
    requires
        u.banned,
    ensures
        login_verdict(Some(&u), password) == Verdict::Refuse(ErrorKind::Forbidden, "account banned"@),
        submit_outcome(Some(&u), password) == Err::<bool, Verdict>(
            Verdict::Refuse(ErrorKind::Forbidden, "account banned"@),
        ),
        token_user_verdict(Some(&u)) == Verdict::Refuse(ErrorKind::Forbidden, "account banned"@),
{
}

/// The hidden field `name` holding `value`, as the page writes it.
pub open spec fn hidden_field(name: Seq<char>, value: Seq<char>) -> Seq<char> {
    "name=\""@ + name + "\" value=\""@ + value + "\""@
}

/// `page` holds the hidden field `name` with the value `value`.
pub open spec fn has_field(page: Seq<char>, name: Seq<char>, value: Seq<char>) -> bool {
    exists|i: int|
        0 <= i && i + hidden_field(name, value).len() <= page.len() && #[trigger] page.subrange(
            i,
            i + hidden_field(name, value).len(),
        ) == hidden_field(name, value)
}

proof fn lemma_field_in(p: Seq<char>, name: Seq<char>, value: Seq<char>, q: Seq<char>)
    requires
        q.len() > 0,
        q[0] == '"',
    ensures
        has_field(p + ("name=\""@ + name + "\" value=\""@) + value + q, name, value),
{
    reveal_strlit("\"");
    let page = p + ("name=\""@ + name + "\" value=\""@) + value + q;
    let f = hidden_field(name, value);
    assert(page.subrange(p.len() as int, p.len() + f.len() as int) =~= f);
}

/// The sign-in page carries each parameter of the request back under its
/// own hidden field: `client_id`, `redirect_uri`, `state`, `code_challenge`,
/// `code_challenge_method` and `response_type` each hold the value given
/// for them, so the posted form returns them as they came.
pub proof fn law_form_carries_each_parameter(
    clientid: Seq<char>,
    redirecturi: Seq<char>,
    state: Seq<char>,
    codechallenge: Seq<char>,
    method: Seq<char>,
    responsetype: Seq<char>,
    error: Option<&str>,
)
    ensures
        has_field(
            login_page(clientid, redirecturi, state, codechallenge, method, responsetype, error),
            "client_id"@,
            clientid,
        ),
        has_field(
            login_page(clientid, redirecturi, state, codechallenge, method, responsetype, error),
            "redirect_uri"@,
            redirecturi,
        ),
        has_field(
            login_page(clientid, redirecturi, state, codechallenge, method, responsetype, error),
            "state"@,
            state,
        ),
        has_field(
            login_page(clientid, redirecturi, state, codechallenge, method, responsetype, error),
            "code_challenge"@,
            codechallenge,
        ),
        has_field(
            login_page(clientid, redirecturi, state, codechallenge, method, responsetype, error),
            "code_challenge_method"@,
            method,
        ),
        has_field(
            login_page(clientid, redirecturi, state, codechallenge, method, responsetype, error),
            "response_type"@,
            responsetype,
        ),
{
    reveal_strlit("name=\"");
    reveal_strlit("\" value=\"");
    reveal_strlit("\n<input type=\"hidden\" ");
    reveal_strlit("\">\n<input type=\"hidden\" ");
    reveal_strlit("client_id");
    reveal_strlit("redirect_uri");
    reveal_strlit("state");
    reveal_strlit("code_challenge");
    reveal_strlit("code_challenge_method");
    reveal_strlit("response_type");
    reveal_strlit("\n<input type=\"hidden\" name=\"client_id\" value=\"");
    reveal_strlit("\">\n<input type=\"hidden\" name=\"redirect_uri\" value=\"");
    reveal_strlit("\">\n<input type=\"hidden\" name=\"state\" value=\"");
    reveal_strlit("\">\n<input type=\"hidden\" name=\"code_challenge\" value=\"");
    reveal_strlit("\">\n<input type=\"hidden\" name=\"code_challenge_method\" value=\"");
    reveal_strlit("\">\n<input type=\"hidden\" name=\"response_type\" value=\"");
    reveal_strlit("\">\n<input type=\"email\" name=\"email\" placeholder=\"email\" required>\n<input type=\"password\" name=\"password\" placeholder=\"password\" required>\n<button type=\"submit\">login</button>\n</form>\n</body>\n</html>");
    let open1 = "\n<input type=\"hidden\" "@;
    let open2 = "\">\n<input type=\"hidden\" "@;
    let head = FORM_HEAD@ + error_html(error);
    let t6 = FORM_RESPONSE_TYPE@ + responsetype + FORM_TAIL@;
    let t5 = FORM_METHOD@ + method + t6;
    let t4 = FORM_CHALLENGE@ + codechallenge + t5;
    let t3 = FORM_STATE@ + state + t4;
    let t2 = FORM_REDIRECT_URI@ + redirecturi + t3;
    let page = login_page(clientid, redirecturi, state, codechallenge, method, responsetype, error);
    assert(FORM_CLIENT_ID@ =~= open1 + ("name=\""@ + "client_id"@ + "\" value=\""@));
    assert(FORM_REDIRECT_URI@ =~= open2 + ("name=\""@ + "redirect_uri"@ + "\" value=\""@));
    assert(FORM_STATE@ =~= open2 + ("name=\""@ + "state"@ + "\" value=\""@));
    assert(FORM_CHALLENGE@ =~= open2 + ("name=\""@ + "code_challenge"@ + "\" value=\""@));
    assert(FORM_METHOD@ =~= open2 + ("name=\""@ + "code_challenge_method"@ + "\" value=\""@));
    assert(FORM_RESPONSE_TYPE@ =~= open2 + ("name=\""@ + "response_type"@ + "\" value=\""@));
    assert(t2[0] == '"');
    assert(t3[0] == '"');
    assert(t4[0] == '"');
    assert(t5[0] == '"');
    assert(t6[0] == '"');
    assert(FORM_TAIL@[0] == '"');
    assert(page =~= (head + open1) + ("name=\""@ + "client_id"@ + "\" value=\""@) + clientid + t2);
    lemma_field_in(head + open1, "client_id"@, clientid, t2);
    let p2 = head + FORM_CLIENT_ID@ + clientid + open2;
    assert(page =~= p2 + ("name=\""@ + "redirect_uri"@ + "\" value=\""@) + redirecturi + t3);
    lemma_field_in(p2, "redirect_uri"@, redirecturi, t3);
    let p3 = head + FORM_CLIENT_ID@ + clientid + FORM_REDIRECT_URI@ + redirecturi + open2;
    assert(page =~= p3 + ("name=\""@ + "state"@ + "\" value=\""@) + state + t4);
    lemma_field_in(p3, "state"@, state, t4);
    let p4 = head + FORM_CLIENT_ID@ + clientid + FORM_REDIRECT_URI@ + redirecturi + FORM_STATE@
        + state + open2;
    assert(page =~= p4 + ("name=\""@ + "code_challenge"@ + "\" value=\""@) + codechallenge + t5);
    lemma_field_in(p4, "code_challenge"@, codechallenge, t5);
    let p5 = head + FORM_CLIENT_ID@ + clientid + FORM_REDIRECT_URI@ + redirecturi + FORM_STATE@
        + state + FORM_CHALLENGE@ + codechallenge + open2;
    assert(page =~= p5 + ("name=\""@ + "code_challenge_method"@ + "\" value=\""@) + method + t6);
    lemma_field_in(p5, "code_challenge_method"@, method, t6);
    let p6 = head + FORM_CLIENT_ID@ + clientid + FORM_REDIRECT_URI@ + redirecturi + FORM_STATE@
        + state + FORM_CHALLENGE@ + codechallenge + FORM_METHOD@ + method + open2;
    assert(page =~= p6 + ("name=\""@ + "response_type"@ + "\" value=\""@) + responsetype
        + FORM_TAIL@);
    lemma_field_in(p6, "response_type"@, responsetype, FORM_TAIL@);
}

/// The sign-in form admits exactly the accounts that sign-in admits: an
/// unverified or banned account is refused by it with the same error as by
/// `/login`, whatever the password, and a code is issued exactly when
/// sign-in would grant tokens.
pub proof fn law_form_admits_as_login(u: User, password: Seq<char>)
    ensures
        u.banned ==> submit_outcome(Some(&u), password) == Err::<bool, Verdict>(
            Verdict::Refuse(ErrorKind::Forbidden, "account banned"@),
        ),
        !u.banned && !u.verified ==> submit_outcome(Some(&u), password) == Err::<bool, Verdict>(
            Verdict::Refuse(ErrorKind::Forbidden, "email not verified"@),
        ),
        (login_verdict(Some(&u), password) matches Verdict::Refuse(k, m) && k
            == ErrorKind::Forbidden) ==> submit_outcome(Some(&u), password) == Err::<bool, Verdict>(
            login_verdict(Some(&u), password),
        ),
        submit_outcome(Some(&u), password) == Ok::<bool, Verdict>(true) <==> login_verdict(
            Some(&u),
            password,
        ) == Verdict::Pass,
        submit_outcome(Some(&u), password) == Ok::<bool, Verdict>(true) ==> u.verified && !u.banned
            && spec_verifypw(password, u.passhash@) == Some(true),
{
}

} // verus!
