//! The order of the token endpoints' steps (sign-in, refresh-token rotation
//! and the authorization-code exchange): a machine from the step reached
//! and what the database answered, to the next step and what to ask of the
//! database. The caller runs the database statements and feeds back their
//! answers; each write is asked for only once every check before it has
//! passed.
use vstd::prelude::*;

use crate::error::{answers, bad_request, internal, unauthorized, AppError, ErrorKind, Verdict};
use crate::hash::{hashtoken, token_digest};
use crate::models::{AuthCode, Client, RefreshToken, User};
use crate::routes::account::{
    check_login, check_token_user, grant_tokens, grants, login_verdict, token_user_verdict,
    TokenGrant, REFRESH_TTL,
};
use crate::routes::token::{
    basic_credentials, check_client, check_code, check_grant_type, client_verdict, code_verdict,
    parsebasic, TokenExchangeBody,
};
use crate::text::{normalize_email, normalized_email, owned};
use crate::hash::{is_hex_of_bytes, s256_challenge, spec_verifypw};
use crate::routes::authorize::{
    check_redirect, check_request, check_submit, formerror, issue_code, location_for, login_page,
    redirect_location, redirect_verdict, request_verdict, submit_outcome, AuthorizeForm,
    AUTHCODE_TTL,
};

verus! {

/// Where a token request stands.
pub enum TokenPhase {
    /// An exchange whose client, authenticated by `cid` and `secret`, has
    /// been asked for.
    AwaitClient { cid: String, secret: String, form: TokenExchangeBody },
    /// An exchange whose code has been asked to be redeemed.
    AwaitCode { cid: String, form: TokenExchangeBody },
    /// A refresh whose stored token has been asked to be taken out.
    AwaitStoredToken,
    /// A sign-in whose account has been asked for.
    AwaitAccount { password: String },
    /// A refresh or exchange whose user has been asked for; the client the
    /// new refresh token is stored for.
    AwaitUser { clientid: Option<String> },
    /// The new refresh token has been asked to be saved.
    AwaitSaved { grant: TokenGrant },
    /// The answer has been given.
    Done,
}

/// What the database answered to the last action.
pub enum TokenEvent {
    /// The client with the asked id, if there is one.
    Client(Option<Client>),
    /// The code, if it was unused and unexpired (it is now marked used).
    Code(Option<AuthCode>),
    /// The stored refresh token, if it was there and unexpired (it is now
    /// deleted).
    StoredToken(Option<RefreshToken>),
    /// The account with the asked email, and the time of the answer.
    Account { user: Option<User>, now: i64 },
    /// The user with the asked id, and the time of the answer.
    User { user: Option<User>, now: i64 },
    /// The new refresh token was saved.
    Saved,
}

/// What to do next.
pub enum TokenAction {
    /// Look up the client with this id.
    FetchClient(String),
    /// Mark this code used, if it is unused and unexpired, and return it.
    RedeemCode(String),
    /// Delete the stored refresh token with this hash, if unexpired, and
    /// return it.
    TakeRefreshToken(String),
    /// Look up the account with this email.
    FetchAccount(String),
    /// Look up the user with this id.
    FetchUser(u128),
    /// Store a refresh token: its hash, user, client and expiry.
    SaveRefresh { tokenhash: String, userid: u128, clientid: Option<String>, expiresat: i64 },
    /// Answer the request: the granted tokens or the error.
    Reply(Result<TokenGrant, AppError>),
}

/// The views of two exchange forms agree.
pub open spec fn same_form(a: TokenExchangeBody, b: TokenExchangeBody) -> bool {
    &&& a.grant_type@ == b.grant_type@
    &&& a.code@ == b.code@
    &&& a.redirect_uri@ == b.redirect_uri@
    &&& a.code_verifier@ == b.code_verifier@
}

/// The view of an optional string.
pub open spec fn opt_chars(o: Option<String>) -> Option<Seq<char>> {
    match o {
        Some(s) => Some(s@),
        None => None,
    }
}

/// A reference to what an option holds.
pub open spec fn opt_ref<T>(o: &Option<T>) -> Option<&T> {
    match o {
        Some(x) => Some(x),
        None => None,
    }
}

/// An exchange's client must authenticate and ask for the
/// `authorization_code` grant.
pub open spec fn exchange_client_verdict(
    client: Option<&Client>,
    secret: Seq<char>,
    grant_type: Seq<char>,
) -> Verdict {
    match client_verdict(client, secret) {
        Verdict::Pass => if grant_type == "authorization_code"@ {
            Verdict::Pass
        } else {
            Verdict::Refuse(ErrorKind::BadRequest, "unsupported grant_type"@)
        },
        v => v,
    }
}

/// The request is over, answered with an error that `v` gives.
pub open spec fn refused_with(r: (TokenPhase, TokenAction), v: Verdict) -> bool {
    &&& r.0 is Done
    &&& r.1 matches TokenAction::Reply(x) && x is Err && answers(x, v)
}

/// The request is over, answered with the error `e`.
pub open spec fn refused_as(r: (TokenPhase, TokenAction), e: (ErrorKind, Seq<char>)) -> bool {
    &&& r.0 is Done
    &&& r.1 matches TokenAction::Reply(x) && x matches Err(y) && y@ == e
}

/// Tokens are granted to `u` at `now` and the new refresh token is to be
/// saved for client `clientid`.
pub open spec fn saving_grant(r: (TokenPhase, TokenAction), u: User, now: i64, clientid: Option<Seq<char>>) -> bool {
    &&& r.0 matches TokenPhase::AwaitSaved { grant } && grants(grant, u, now) && (
    r.1 matches TokenAction::SaveRefresh { tokenhash, userid, clientid: c, expiresat }
        && tokenhash@ == grant.refreshhash@ && userid == u.id && opt_chars(c) == clientid
        && expiresat == grant.expiresat)
}

/// Starts an exchange: the `Authorization` header must carry the client's
/// credentials; then the client is looked up.
pub fn begin_exchange(header: Option<&str>, form: TokenExchangeBody) -> (r: (TokenPhase, TokenAction))
    ensures
        (match basic_credentials(header) {
            Err(m) => refused_as(r, (ErrorKind::Unauthorized, m)),
            Ok(p) => r.0 matches TokenPhase::AwaitClient { cid, secret, form: f } && cid@ == p.0
                && secret@ == p.1 && same_form(f, form) && (r.1 matches TokenAction::FetchClient(c)
                && c@ == p.0),
        }),
{
    match parsebasic(header) {
        Err(e) => (TokenPhase::Done, TokenAction::Reply(Err(e))),
        Ok((cid, secret)) => {
            let c = cid.clone();
            (TokenPhase::AwaitClient { cid, secret, form }, TokenAction::FetchClient(c))
        },
    }
}

/// Starts a refresh: the stored copy of the token is taken out by its hash.
pub fn begin_refresh(token: &str) -> (r: (TokenPhase, TokenAction))
    ensures
        r.0 is AwaitStoredToken,
        r.1 matches TokenAction::TakeRefreshToken(h) && h@ == token_digest(token@),
{
    (TokenPhase::AwaitStoredToken, TokenAction::TakeRefreshToken(hashtoken(token)))
}

/// Starts a sign-in: the account is looked up by the address, trimmed and
/// lowercased.
pub fn begin_login(email: &str, password: &str) -> (r: (TokenPhase, TokenAction))
    ensures
        r.0 matches TokenPhase::AwaitAccount { password: p } && p@ == password@,
        r.1 matches TokenAction::FetchAccount(e) && e@ == normalized_email(email@),
{
    (
        TokenPhase::AwaitAccount { password: password.to_owned() },
        TokenAction::FetchAccount(normalize_email(email)),
    )
}

/// Grants tokens to `u` at `now` and asks for the refresh token to be saved.
fn grant_and_save(u: &User, now: i64, clientid: Option<String>) -> (r: (TokenPhase, TokenAction))
    requires
        now <= i64::MAX - REFRESH_TTL,
    ensures
        saving_grant(r, *u, now, opt_chars(clientid)),
{
    let grant = grant_tokens(u, now);
    let tokenhash = grant.refreshhash.clone();
    let expiresat = grant.expiresat;
    (
        TokenPhase::AwaitSaved { grant },
        TokenAction::SaveRefresh { tokenhash, userid: u.id, clientid, expiresat },
    )
}

/// The step a token request takes from `phase` on `event` is `r`: the
/// checks of that step decide, and a database write is asked for only when
/// they pass.
pub open spec fn token_next(phase: TokenPhase, event: TokenEvent, r: (TokenPhase, TokenAction)) -> bool {
    (match (phase, event) {
        (TokenPhase::AwaitClient { cid, secret, form }, TokenEvent::Client(c)) => {
            let v = exchange_client_verdict(opt_ref(&c), secret@, form.grant_type@);
            if v == Verdict::Pass {
                r.0 matches TokenPhase::AwaitCode { cid: c2, form: f } && c2@ == cid@
                    && same_form(f, form) && (r.1 matches TokenAction::RedeemCode(k) && k@
                    == form.code@)
            } else {
                refused_with(r, v)
            }
        },
        (TokenPhase::AwaitCode { cid, form }, TokenEvent::Code(code)) => {
            let v = code_verdict(opt_ref(&code), cid@, form.redirect_uri@, form.code_verifier@);
            if v == Verdict::Pass {
                r.0 matches TokenPhase::AwaitUser { clientid } && opt_chars(clientid) == Some(
                    cid@,
                ) && r.1 == TokenAction::FetchUser(code->0.userid)
            } else {
                refused_with(r, v)
            }
        },
        (TokenPhase::AwaitStoredToken, TokenEvent::StoredToken(row)) => match row {
            None => refused_as(
                r,
                (ErrorKind::Unauthorized, "invalid or expired refresh token"@),
            ),
            Some(t) => r.0 matches TokenPhase::AwaitUser { clientid } && opt_chars(clientid)
                == opt_chars(t.clientid) && r.1 == TokenAction::FetchUser(t.userid),
        },
        (TokenPhase::AwaitAccount { password }, TokenEvent::Account { user, now }) => {
            let v = login_verdict(opt_ref(&user), password@);
            if v == Verdict::Pass {
                saving_grant(r, user->0, now, None)
            } else {
                refused_with(r, v)
            }
        },
        (TokenPhase::AwaitUser { clientid }, TokenEvent::User { user, now }) => {
            let v = token_user_verdict(opt_ref(&user));
            if v == Verdict::Pass {
                saving_grant(r, user->0, now, opt_chars(clientid))
            } else {
                refused_with(r, v)
            }
        },
        (TokenPhase::AwaitSaved { grant }, TokenEvent::Saved) => r.0 is Done && r.1
            == TokenAction::Reply(Ok(grant)),
        _ => refused_as(r, (ErrorKind::Internal, "token request out of order"@)),
    })
}

/// The next step of a token request, from the step reached and what the
/// database answered.
pub fn token_step(phase: TokenPhase, event: TokenEvent) -> (r: (TokenPhase, TokenAction))
    requires
        event matches TokenEvent::Account { now, .. } ==> now <= i64::MAX - REFRESH_TTL,
        event matches TokenEvent::User { now, .. } ==> now <= i64::MAX - REFRESH_TTL,
    ensures
        token_next(phase, event, r),
{
    match (phase, event) {
        (TokenPhase::AwaitClient { cid, secret, form }, TokenEvent::Client(c)) => {
            if let Err(e) = check_client(c.as_ref(), secret.as_str()) {
                return (TokenPhase::Done, TokenAction::Reply(Err(e)));
            }
            if let Err(e) = check_grant_type(form.grant_type.as_str()) {
                return (TokenPhase::Done, TokenAction::Reply(Err(e)));
            }
            let k = form.code.clone();
            (TokenPhase::AwaitCode { cid, form }, TokenAction::RedeemCode(k))
        },
        (TokenPhase::AwaitCode { cid, form }, TokenEvent::Code(code)) => {
            if let Err(e) = check_code(
                code.as_ref(),
                cid.as_str(),
                form.redirect_uri.as_str(),
                form.code_verifier.as_str(),
            ) {
                return (TokenPhase::Done, TokenAction::Reply(Err(e)));
            }
            match code {
                Some(k) => (
                    TokenPhase::AwaitUser { clientid: Some(cid) },
                    TokenAction::FetchUser(k.userid),
                ),
                None => (
                    TokenPhase::Done,
                    TokenAction::Reply(Err(bad_request("invalid or expired code"))),
                ),
            }
        },
        (TokenPhase::AwaitStoredToken, TokenEvent::StoredToken(row)) => match row {
            None => (
                TokenPhase::Done,
                TokenAction::Reply(Err(unauthorized("invalid or expired refresh token"))),
            ),
            Some(t) => (TokenPhase::AwaitUser { clientid: t.clientid }, TokenAction::FetchUser(t.userid)),
        },
        (TokenPhase::AwaitAccount { password }, TokenEvent::Account { user, now }) => {
            if let Err(e) = check_login(user.as_ref(), password.as_str()) {
                return (TokenPhase::Done, TokenAction::Reply(Err(e)));
            }
            match user {
                Some(u) => grant_and_save(&u, now, None),
                None => (
                    TokenPhase::Done,
                    TokenAction::Reply(Err(unauthorized("invalid credentials"))),
                ),
            }
        },
        (TokenPhase::AwaitUser { clientid }, TokenEvent::User { user, now }) => {
            if let Err(e) = check_token_user(user.as_ref()) {
                return (TokenPhase::Done, TokenAction::Reply(Err(e)));
            }
            match user {
                Some(u) => grant_and_save(&u, now, clientid),
                None => (TokenPhase::Done, TokenAction::Reply(Err(unauthorized("user not found")))),
            }
        },
        (TokenPhase::AwaitSaved { grant }, TokenEvent::Saved) => (
            TokenPhase::Done,
            TokenAction::Reply(Ok(grant)),
        ),
        _ => (
            TokenPhase::Done,
            TokenAction::Reply(Err(internal(owned("token request out of order")))),
        ),
    }
}

/// A code of the table of codes (code to row) that the statement behind
/// [`TokenAction::RedeemCode`] finds at `now`: there, unused and unexpired.
pub open spec fn code_redeemable(codes: Map<Seq<char>, AuthCode>, code: Seq<char>, now: i64) -> bool {
    &&& codes.dom().contains(code)
    &&& !codes[code].used
    &&& codes[code].expiresat > now
}

/// What redeeming `code` at `now` does to the table of codes, and what it
/// returns: a code it finds is marked used and returned.
pub open spec fn redeem(codes: Map<Seq<char>, AuthCode>, code: Seq<char>, now: i64) -> (
    Map<Seq<char>, AuthCode>,
    Option<AuthCode>,
) {
    if code_redeemable(codes, code, now) {
        let c = AuthCode { used: true, ..codes[code] };
        (codes.insert(code, c), Some(c))
    } else {
        (codes, None)
    }
}

/// What taking out the stored refresh token with hash `hash` at `now` does
/// to the table of refresh tokens (hash to row), and what it returns: an
/// unexpired one is deleted and returned.
pub open spec fn take_refresh(rows: Map<Seq<char>, RefreshToken>, hash: Seq<char>, now: i64) -> (
    Map<Seq<char>, RefreshToken>,
    Option<RefreshToken>,
) {
    if rows.dom().contains(hash) && rows[hash].expiresat > now {
        (rows.remove(hash), Some(rows[hash]))
    } else {
        (rows, None)
    }
}

/// An authorization code is redeemed at most once: whatever the first
/// redemption found, a later one of the same code finds nothing, and the
/// exchange that asked for it is then refused as an invalid or expired code
/// without a token being granted or saved.
pub proof fn law_code_redeemed_once(
    codes: Map<Seq<char>, AuthCode>,
    now: i64,
    later: i64,
    cid: String,
    form: TokenExchangeBody,
    r: (TokenPhase, TokenAction),
)
    requires
        now <= later,
        token_next(
            TokenPhase::AwaitCode { cid, form },
            TokenEvent::Code(redeem(redeem(codes, form.code@, now).0, form.code@, later).1),
            r,
        ),
    ensures
        redeem(redeem(codes, form.code@, now).0, form.code@, later).1 is None,
        refused_as(r, (ErrorKind::BadRequest, "invalid or expired code"@)),
{
}

/// A refresh token works once: after it was taken out, and the rotated
/// token (of another hash) saved, a later refresh with it finds nothing and
/// is refused; the rotated token is found until it expires.
pub proof fn law_refresh_token_rotates(
    rows: Map<Seq<char>, RefreshToken>,
    hash: Seq<char>,
    now: i64,
    newhash: Seq<char>,
    newrow: RefreshToken,
    later: i64,
    r: (TokenPhase, TokenAction),
)
    requires
        now <= later,
        newhash != hash,
        token_next(
            TokenPhase::AwaitStoredToken,
            TokenEvent::StoredToken(
                take_refresh(take_refresh(rows, hash, now).0.insert(newhash, newrow), hash, later).1,
            ),
            r,
        ),
    ensures
        take_refresh(take_refresh(rows, hash, now).0.insert(newhash, newrow), hash, later).1 is None,
        refused_as(r, (ErrorKind::Unauthorized, "invalid or expired refresh token"@)),
        newrow.expiresat > later ==> take_refresh(
            take_refresh(rows, hash, now).0.insert(newhash, newrow),
            newhash,
            later,
        ).1 == Some(newrow),
{
}

/// The token endpoints write only after their checks: a code is redeemed
/// only for an authenticated client asking for the `authorization_code`
/// grant, and a refresh token is saved only for an account that passed the
/// sign-in checks or a user who may be granted tokens.
pub proof fn law_writes_follow_checks(phase: TokenPhase, event: TokenEvent, r: (TokenPhase, TokenAction))
    requires
        token_next(phase, event, r),
    ensures
        r.1 is RedeemCode ==> (match (phase, event) {
            (TokenPhase::AwaitClient { secret, form, .. }, TokenEvent::Client(c)) => exchange_client_verdict(
                opt_ref(&c),
                secret@,
                form.grant_type@,
            ) == Verdict::Pass,
            _ => false,
        }),
        r.1 is SaveRefresh ==> (match (phase, event) {
            (TokenPhase::AwaitAccount { password }, TokenEvent::Account { user, .. }) => login_verdict(
                opt_ref(&user),
                password@,
            ) == Verdict::Pass,
            (TokenPhase::AwaitUser { .. }, TokenEvent::User { user, .. }) => token_user_verdict(
                opt_ref(&user),
            ) == Verdict::Pass,
            _ => false,
        }),
{
}

/// Where a sign-in form submission to `/authorize` stands.
pub enum AuthorizePhase {
    /// The client named by the form has been asked for.
    AwaitClient { form: AuthorizeForm },
    /// The account of the form's email has been asked for.
    AwaitAccount { form: AuthorizeForm },
    /// A new code has been asked to be saved; where the browser goes next.
    AwaitCodeSaved { location: String },
    /// The answer has been given.
    Done,
}

/// What the database answered to the last action.
pub enum AuthorizeEvent {
    /// The client with the asked id, if there is one.
    Client(Option<Client>),
    /// The account with the asked email, and the time of the answer.
    Account { user: Option<User>, now: i64 },
    /// The code was saved.
    CodeSaved,
}

/// What to do next.
pub enum AuthorizeAction {
    /// Look up the client with this id.
    FetchClient(String),
    /// Look up the account with this email.
    FetchAccount(String),
    /// Store a new, unused code: issued to this client for this user,
    /// redirect URI and challenge, expiring at `expiresat`.
    SaveCode {
        code: String,
        clientid: String,
        userid: u128,
        redirecturi: String,
        codechallenge: String,
        expiresat: i64,
    },
    /// Send the browser to this location.
    Redirect(String),
    /// Show the sign-in page again with this status and body.
    ShowForm(u16, String),
    /// Answer with this error.
    Fail(AppError),
}

/// The views of two sign-in forms agree.
pub open spec fn same_authorize_form(a: AuthorizeForm, b: AuthorizeForm) -> bool {
    &&& a.client_id@ == b.client_id@
    &&& a.redirect_uri@ == b.redirect_uri@
    &&& a.state@ == b.state@
    &&& a.code_challenge@ == b.code_challenge@
    &&& a.code_challenge_method@ == b.code_challenge_method@
    &&& a.response_type@ == b.response_type@
    &&& a.email@ == b.email@
    &&& a.password@ == b.password@
}

/// The submission is over, answered with an error that `v` gives.
pub open spec fn authorize_failed(r: (AuthorizePhase, AuthorizeAction), v: Verdict) -> bool {
    &&& r.0 is Done
    &&& r.1 matches AuthorizeAction::Fail(e) && answers(Err::<(), AppError>(e), v)
}

/// Starts a form submission: the request must ask for an S256 code; then
/// the client is looked up.
pub fn begin_submit(form: AuthorizeForm) -> (r: (AuthorizePhase, AuthorizeAction))
    ensures
        ({
            let v = request_verdict(form.response_type@, form.code_challenge_method@);
            if v == Verdict::Pass {
                r.0 matches AuthorizePhase::AwaitClient { form: f } && same_authorize_form(f, form)
                    && (r.1 matches AuthorizeAction::FetchClient(c) && c@ == form.client_id@)
            } else {
                authorize_failed(r, v)
            }
        }),
{
    if let Err(e) = check_request(form.response_type.as_str(), form.code_challenge_method.as_str()) {
        return (AuthorizePhase::Done, AuthorizeAction::Fail(e));
    }
    let c = form.client_id.clone();
    (AuthorizePhase::AwaitClient { form }, AuthorizeAction::FetchClient(c))
}

/// The step a form submission takes from `phase` on `event` is `r`: a code
/// is saved only for an account that may sign in with the password given,
/// issued at the time of the answer and expiring [`AUTHCODE_TTL`] seconds
/// later, and the browser is sent back with it once it is saved.
pub open spec fn authorize_next(
    phase: AuthorizePhase,
    event: AuthorizeEvent,
    r: (AuthorizePhase, AuthorizeAction),
) -> bool {
    match (phase, event) {
        (AuthorizePhase::AwaitClient { form }, AuthorizeEvent::Client(c)) => {
            let v = redirect_verdict(opt_ref(&c), form.redirect_uri@);
            if v == Verdict::Pass {
                r.0 matches AuthorizePhase::AwaitAccount { form: f } && same_authorize_form(f, form)
                    && (r.1 matches AuthorizeAction::FetchAccount(e) && e@ == normalized_email(
                    form.email@,
                ))
            } else {
                authorize_failed(r, v)
            }
        },
        (AuthorizePhase::AwaitAccount { form }, AuthorizeEvent::Account { user, now }) => match submit_outcome(
            opt_ref(&user),
            form.password@,
        ) {
            Err(v) => authorize_failed(r, v),
            Ok(false) => r.0 is Done && (r.1 matches AuthorizeAction::ShowForm(status, page)
                && status == 401 && page@ == login_page(
                form.client_id@,
                form.redirect_uri@,
                form.state@,
                form.code_challenge@,
                form.code_challenge_method@,
                form.response_type@,
                Some("invalid credentials"),
            )),
            Ok(true) => r.0 matches AuthorizePhase::AwaitCodeSaved { location } && (
            r.1 matches AuthorizeAction::SaveCode {
                code,
                clientid,
                userid,
                redirecturi,
                codechallenge,
                expiresat,
            } && is_hex_of_bytes(code@, 32) && clientid@ == form.client_id@ && userid
                == user->0.id && redirecturi@ == form.redirect_uri@ && codechallenge@
                == form.code_challenge@ && expiresat == now + AUTHCODE_TTL && location@
                == location_for(form.redirect_uri@, code@, form.state@)),
        },
        (AuthorizePhase::AwaitCodeSaved { location }, AuthorizeEvent::CodeSaved) => r.0 is Done
            && (r.1 matches AuthorizeAction::Redirect(l) && l@ == location@),
        _ => r.0 is Done && (r.1 matches AuthorizeAction::Fail(e) && e@ == (
            ErrorKind::Internal,
            "authorize request out of order"@,
        )),
    }
}

/// The next step of a sign-in form submission.
pub fn authorize_step(phase: AuthorizePhase, event: AuthorizeEvent) -> (r: (
    AuthorizePhase,
    AuthorizeAction,
))
    requires
        event matches AuthorizeEvent::Account { now, .. } ==> now <= i64::MAX - AUTHCODE_TTL,
    ensures
        authorize_next(phase, event, r),
{
    match (phase, event) {
        (AuthorizePhase::AwaitClient { form }, AuthorizeEvent::Client(c)) => {
            if let Err(e) = check_redirect(c.as_ref(), form.redirect_uri.as_str()) {
                return (AuthorizePhase::Done, AuthorizeAction::Fail(e));
            }
            let email = normalize_email(form.email.as_str());
            (AuthorizePhase::AwaitAccount { form }, AuthorizeAction::FetchAccount(email))
        },
        (AuthorizePhase::AwaitAccount { form }, AuthorizeEvent::Account { user, now }) => {
            let ok = match check_submit(user.as_ref(), form.password.as_str()) {
                Ok(b) => b,
                Err(e) => {
                    return (AuthorizePhase::Done, AuthorizeAction::Fail(e));
                },
            };
            if !ok {
                let (status, page) = formerror(&form, "invalid credentials");
                return (AuthorizePhase::Done, AuthorizeAction::ShowForm(status, page));
            }
            let userid = match &user {
                Some(u) => u.id,
                None => {
                    return (
                        AuthorizePhase::Done,
                        AuthorizeAction::Fail(internal(owned("authorize request out of order"))),
                    );
                },
            };
            let (code, expiresat) = issue_code(now);
            let location = redirect_location(
                form.redirect_uri.as_str(),
                code.as_str(),
                form.state.as_str(),
            );
            (
                AuthorizePhase::AwaitCodeSaved { location },
                AuthorizeAction::SaveCode {
                    code,
                    clientid: form.client_id,
                    userid,
                    redirecturi: form.redirect_uri,
                    codechallenge: form.code_challenge,
                    expiresat,
                },
            )
        },
        (AuthorizePhase::AwaitCodeSaved { location }, AuthorizeEvent::CodeSaved) => (
            AuthorizePhase::Done,
            AuthorizeAction::Redirect(location),
        ),
        _ => (
            AuthorizePhase::Done,
            AuthorizeAction::Fail(internal(owned("authorize request out of order"))),
        ),
    }
}

/// A code is saved only for a submission whose account may sign in with
/// the password given, and it expires [`AUTHCODE_TTL`] seconds after the
/// time the account was read.
pub proof fn law_code_saved_only_after_sign_in(
    phase: AuthorizePhase,
    event: AuthorizeEvent,
    r: (AuthorizePhase, AuthorizeAction),
)
    requires
        authorize_next(phase, event, r),
        r.1 is SaveCode,
    ensures
        (match (phase, event) {
            (AuthorizePhase::AwaitAccount { form }, AuthorizeEvent::Account { user, now }) => submit_outcome(
                opt_ref(&user),
                form.password@,
            ) == Ok::<bool, Verdict>(true) && r.1->SaveCode_expiresat == now + AUTHCODE_TTL,
            _ => false,
        }),
{
}

/// An exchange redeems a code only when it asks for the
/// `authorization_code` grant and its client exists and its secret verifies;
/// any other grant is refused as unsupported once the client has
/// authenticated, and no code is redeemed for it.
pub proof fn law_code_redeemed_only_for_code_grant(
    cid: String,
    secret: String,
    form: TokenExchangeBody,
    c: Option<Client>,
    r: (TokenPhase, TokenAction),
)
    requires
        token_next(TokenPhase::AwaitClient { cid, secret, form }, TokenEvent::Client(c), r),
    ensures
        r.1 is RedeemCode ==> form.grant_type@ == "authorization_code"@ && c is Some
            && spec_verifypw(secret@, c->0.secrethash@) == Some(true),
        form.grant_type@ != "authorization_code"@ && c is Some && spec_verifypw(
            secret@,
            c->0.secrethash@,
        ) == Some(true) ==> refused_as(r, (ErrorKind::BadRequest, "unsupported grant_type"@)),
        form.grant_type@ != "authorization_code"@ ==> !(r.1 is RedeemCode),
{
}

/// A code is saved only for a verified, unbanned account whose password
/// verifies, whatever else the submission holds.
pub proof fn law_code_saved_only_for_usable_account(
    form: AuthorizeForm,
    user: Option<User>,
    now: i64,
    r: (AuthorizePhase, AuthorizeAction),
)
    requires
        authorize_next(AuthorizePhase::AwaitAccount { form }, AuthorizeEvent::Account { user, now }, r),
        r.1 is SaveCode,
    ensures
        user is Some,
        user->0.verified,
        !user->0.banned,
        spec_verifypw(form.password@, user->0.passhash@) == Some(true),
{
}

/// A redeemed code leads on to its user only when it was issued to the
/// exchanging client, for the redirect URI given, with the S256 challenge of
/// the verifier given.
pub proof fn law_code_matches_exchange(
    cid: String,
    form: TokenExchangeBody,
    code: Option<AuthCode>,
    r: (TokenPhase, TokenAction),
)
    requires
        token_next(TokenPhase::AwaitCode { cid, form }, TokenEvent::Code(code), r),
        r.1 is FetchUser,
    ensures
        code is Some,
        code->0.clientid@ == cid@,
        code->0.redirecturi@ == form.redirect_uri@,
        code->0.codechallenge@ == s256_challenge(form.code_verifier@),
{
}

/// Tokens are granted, and a refresh token saved, only to an existing,
/// unbanned user; on sign-in also only to a verified account whose password
/// verifies.
pub proof fn law_tokens_only_for_usable_accounts(phase: TokenPhase, event: TokenEvent, r: (TokenPhase, TokenAction))
    requires
        token_next(phase, event, r),
        r.1 is SaveRefresh,
    ensures
        (match (phase, event) {
            (TokenPhase::AwaitAccount { password }, TokenEvent::Account { user, .. }) => user is Some
                && user->0.verified && !user->0.banned && spec_verifypw(
                password@,
                user->0.passhash@,
            ) == Some(true),
            (TokenPhase::AwaitUser { .. }, TokenEvent::User { user, .. }) => user is Some
                && !user->0.banned,
            _ => false,
        }),
{
}

} // verus!
