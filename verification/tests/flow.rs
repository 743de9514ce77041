use ocas::error::{AppError, ErrorKind};
use ocas::hash::{hashpw, hashtoken, pkcechallenge};
use ocas::models::{AuthCode, Client, RefreshToken, User};
use ocas::routes::account::REFRESH_TTL;
use ocas::routes::authorize::{issue_code, redirect_location, AuthorizeForm, AUTHCODE_TTL};
use ocas::routes::flow::{
    authorize_step, begin_exchange, begin_login, begin_refresh, begin_submit, token_step,
    AuthorizeAction, AuthorizeEvent, AuthorizePhase, TokenAction, TokenEvent, TokenPhase,
};
use ocas::routes::token::TokenExchangeBody;

fn kind_and_message(e: &AppError) -> (ErrorKind, String) {
    let m = match e {
        AppError::BadRequest(m)
        | AppError::Unauthorized(m)
        | AppError::Forbidden(m)
        | AppError::Conflict(m)
        | AppError::Internal(m) => m.clone(),
        AppError::TooManyRequests => String::new(),
    };
    (e.kind(), m)
}

fn account(passhash: &str) -> User {
    User {
        id: 42,
        email: "prof@iiit.ac.in".into(),
        rollnum: None,
        passhash: passhash.into(),
        batch: None,
        branch: None,
        usertype: "faculty".into(),
        verified: true,
        banned: false,
        createdat: 0,
    }
}

fn reply_error(r: (TokenPhase, TokenAction)) -> (ErrorKind, String) {
    assert!(matches!(r.0, TokenPhase::Done));
    match r.1 {
        TokenAction::Reply(Err(e)) => kind_and_message(&e),
        _ => panic!("expected an error reply"),
    }
}

fn form(code: &str, verifier: &str) -> TokenExchangeBody {
    TokenExchangeBody {
        grant_type: "authorization_code".into(),
        code: code.into(),
        redirect_uri: "https://app/cb".into(),
        code_verifier: verifier.into(),
    }
}

#[test]
fn issued_code_expires_ten_minutes_after_now() {
    let (code, expiresat) = issue_code(1_700_000_000);
    assert_eq!(code.len(), 64);
    assert_eq!(expiresat, 1_700_000_000 + AUTHCODE_TTL);
    assert_eq!(expiresat, 1_700_000_600);
}

#[test]
fn login_saves_refresh_token_expiring_thirty_days_after_now() {
    let h = hashpw("pw123456").ok().unwrap();
    let (phase, action) = begin_login("  Prof@IIIT.ac.in ", "pw123456");
    match action {
        TokenAction::FetchAccount(e) => assert_eq!(e, "prof@iiit.ac.in"),
        _ => panic!("expected an account lookup"),
    }
    let (phase, action) =
        token_step(phase, TokenEvent::Account { user: Some(account(&h)), now: 1_000 });
    match action {
        TokenAction::SaveRefresh { tokenhash, userid, clientid, expiresat } => {
            assert_eq!(userid, 42);
            assert_eq!(clientid, None);
            assert_eq!(expiresat, 1_000 + REFRESH_TTL);
            assert_eq!(tokenhash.len(), 64);
        }
        _ => panic!("expected the refresh token to be saved"),
    }
    let (phase, action) = token_step(phase, TokenEvent::Saved);
    assert!(matches!(phase, TokenPhase::Done));
    match action {
        TokenAction::Reply(Ok(g)) => {
            assert_eq!(g.claims.sub, 42);
            assert_eq!(g.claims.iat, 1_000);
            assert_eq!(g.expiresat, 1_000 + 2_592_000);
            assert_eq!(g.refreshhash, hashtoken(&g.refresh));
        }
        _ => panic!("expected the tokens"),
    }
}

#[test]
fn login_refusals_save_nothing() {
    let h = hashpw("pw123456").ok().unwrap();
    let (phase, _) = begin_login("prof@iiit.ac.in", "wrong");
    let r = token_step(phase, TokenEvent::Account { user: Some(account(&h)), now: 1_000 });
    assert_eq!(reply_error(r), (ErrorKind::Unauthorized, "invalid credentials".into()));
    let (phase, _) = begin_login("nobody@iiit.ac.in", "pw123456");
    let r = token_step(phase, TokenEvent::Account { user: None, now: 1_000 });
    assert_eq!(reply_error(r), (ErrorKind::Unauthorized, "invalid credentials".into()));
}

#[test]
fn refresh_token_works_once() {
    let (phase, action) = begin_refresh("tok");
    match action {
        TokenAction::TakeRefreshToken(h) => assert_eq!(h, hashtoken("tok")),
        _ => panic!("expected the stored token to be taken"),
    }
    let row = RefreshToken {
        id: 1,
        tokenhash: hashtoken("tok"),
        userid: 42,
        clientid: Some("cid".into()),
        expiresat: 5_000,
        createdat: 0,
    };
    let (phase2, action) = token_step(phase, TokenEvent::StoredToken(Some(row)));
    assert!(matches!(action, TokenAction::FetchUser(42)));
    let (_, action) = token_step(phase2, TokenEvent::User { user: Some(account("h")), now: 2_000 });
    match action {
        TokenAction::SaveRefresh { clientid, expiresat, .. } => {
            assert_eq!(clientid.as_deref(), Some("cid"));
            assert_eq!(expiresat, 2_000 + REFRESH_TTL);
        }
        _ => panic!("expected the rotated token to be saved"),
    }
    // the stored copy was taken out: a second use finds nothing
    let (phase, _) = begin_refresh("tok");
    let r = token_step(phase, TokenEvent::StoredToken(None));
    assert_eq!(
        reply_error(r),
        (ErrorKind::Unauthorized, "invalid or expired refresh token".into())
    );
}

#[test]
fn exchange_redeems_code_only_for_authenticated_client() {
    let r = begin_exchange(None, form("c", "v"));
    assert_eq!(reply_error(r), (ErrorKind::Unauthorized, "missing authorization header".into()));

    // "cid:s3cret" in standard base64
    let header = "Basic Y2lkOnMzY3JldA==";
    let (phase, action) = begin_exchange(Some(header), form("c", "v"));
    assert!(matches!(action, TokenAction::FetchClient(ref c) if c == "cid"));
    let r = token_step(phase, TokenEvent::Client(None));
    assert_eq!(reply_error(r), (ErrorKind::Unauthorized, "invalid client".into()));

    let client = Client {
        clientid: "cid".into(),
        secrethash: hashpw("s3cret").ok().unwrap(),
        redirecturis: vec!["https://app/cb".into()],
        name: "app".into(),
        createdat: 0,
    };
    let verifier = "dBjftJeZ4CVP-mJ0c2h-WRtuNR4GGx3y1GQ7MS7V-l4";
    let (phase, _) = begin_exchange(Some(header), form("thecode", verifier));
    let (phase, action) = token_step(phase, TokenEvent::Client(Some(client)));
    assert!(matches!(action, TokenAction::RedeemCode(ref c) if c == "thecode"));
    let code = AuthCode {
        code: "thecode".into(),
        clientid: "cid".into(),
        userid: 42,
        redirecturi: "https://app/cb".into(),
        codechallenge: pkcechallenge(verifier),
        expiresat: 9_999,
        used: true,
    };
    let (phase, action) = token_step(phase, TokenEvent::Code(Some(code)));
    assert!(matches!(action, TokenAction::FetchUser(42)));
    let (_, action) = token_step(phase, TokenEvent::User { user: Some(account("h")), now: 3_000 });
    match action {
        TokenAction::SaveRefresh { clientid, expiresat, .. } => {
            assert_eq!(clientid.as_deref(), Some("cid"));
            assert_eq!(expiresat, 3_000 + REFRESH_TTL);
        }
        _ => panic!("expected the refresh token to be saved"),
    }
}

#[test]
fn exchange_of_a_redeemed_code_is_refused() {
    let (phase, _) = begin_exchange(Some("Basic Y2lkOnMzY3JldA=="), form("c", "v"));
    let client = Client {
        clientid: "cid".into(),
        secrethash: hashpw("s3cret").ok().unwrap(),
        redirecturis: vec![],
        name: "app".into(),
        createdat: 0,
    };
    let (phase, _) = token_step(phase, TokenEvent::Client(Some(client)));
    let r = token_step(phase, TokenEvent::Code(None));
    assert_eq!(reply_error(r), (ErrorKind::BadRequest, "invalid or expired code".into()));
}

#[test]
fn token_steps_out_of_order_are_refused() {
    let r = token_step(TokenPhase::Done, TokenEvent::Saved);
    assert_eq!(reply_error(r), (ErrorKind::Internal, "token request out of order".into()));
}

fn authorize_form(response_type: &str, password: &str) -> AuthorizeForm {
    AuthorizeForm {
        client_id: "cid".into(),
        redirect_uri: "https://app/cb".into(),
        state: "st".into(),
        code_challenge: "ch".into(),
        code_challenge_method: "S256".into(),
        response_type: response_type.into(),
        email: " Prof@iiit.ac.in".into(),
        password: password.into(),
    }
}

fn fail_of(r: (AuthorizePhase, AuthorizeAction)) -> (ErrorKind, String) {
    assert!(matches!(r.0, AuthorizePhase::Done));
    match r.1 {
        AuthorizeAction::Fail(e) => kind_and_message(&e),
        _ => panic!("expected an error"),
    }
}

#[test]
fn authorize_submission_saves_code_then_redirects() {
    let h = hashpw("pw123456").ok().unwrap();
    let r = begin_submit(authorize_form("token", "pw123456"));
    assert_eq!(fail_of(r), (ErrorKind::BadRequest, "response_type must be code".into()));

    let (phase, _) = begin_submit(authorize_form("code", "pw123456"));
    let r = authorize_step(phase, AuthorizeEvent::Client(None));
    assert_eq!(fail_of(r), (ErrorKind::BadRequest, "unknown client_id".into()));

    let client = Client {
        clientid: "cid".into(),
        secrethash: "x".into(),
        redirecturis: vec!["https://app/cb".into()],
        name: "app".into(),
        createdat: 0,
    };
    let (phase, action) = begin_submit(authorize_form("code", "pw123456"));
    assert!(matches!(action, AuthorizeAction::FetchClient(ref c) if c == "cid"));
    let (phase, action) = authorize_step(phase, AuthorizeEvent::Client(Some(client)));
    assert!(matches!(action, AuthorizeAction::FetchAccount(ref e) if e == "prof@iiit.ac.in"));
    let (phase, action) =
        authorize_step(phase, AuthorizeEvent::Account { user: Some(account(&h)), now: 10_000 });
    let code = match action {
        AuthorizeAction::SaveCode { code, clientid, userid, redirecturi, codechallenge, expiresat } => {
            assert_eq!(clientid, "cid");
            assert_eq!(userid, 42);
            assert_eq!(redirecturi, "https://app/cb");
            assert_eq!(codechallenge, "ch");
            assert_eq!(expiresat, 10_600);
            code
        }
        _ => panic!("expected the code to be saved"),
    };
    let (phase, action) = authorize_step(phase, AuthorizeEvent::CodeSaved);
    assert!(matches!(phase, AuthorizePhase::Done));
    match action {
        AuthorizeAction::Redirect(l) => {
            assert_eq!(l, redirect_location("https://app/cb", &code, "st"));
            assert_eq!(l, format!("https://app/cb?code={code}&state=st"));
        }
        _ => panic!("expected a redirect"),
    }
}

#[test]
fn authorize_wrong_password_shows_form_and_saves_nothing() {
    let h = hashpw("pw123456").ok().unwrap();
    let client = Client {
        clientid: "cid".into(),
        secrethash: "x".into(),
        redirecturis: vec!["https://app/cb".into()],
        name: "app".into(),
        createdat: 0,
    };
    let (phase, _) = begin_submit(authorize_form("code", "bad"));
    let (phase, _) = authorize_step(phase, AuthorizeEvent::Client(Some(client)));
    let (phase, action) =
        authorize_step(phase, AuthorizeEvent::Account { user: Some(account(&h)), now: 10_000 });
    assert!(matches!(phase, AuthorizePhase::Done));
    match action {
        AuthorizeAction::ShowForm(status, page) => {
            assert_eq!(status, 401);
            assert!(page.contains("invalid credentials"));
        }
        _ => panic!("expected the form again"),
    }
}
