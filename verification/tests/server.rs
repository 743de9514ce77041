use ocas::blocklist::{Blocklist, TTL_NS};
use ocas::config::{Config, ConfigError, EnvVars};
use ocas::error::{AppError, ErrorKind};
use ocas::extract::parseemail;
use ocas::hash::{genclientid, gensecret, gentoken, hashpw, hashtoken, pkcechallenge, verifypw};
use ocas::jwt::{jwks_checked, sign_claims, ACCESS_TTL};
use ocas::models::{AuthCode, Client, User};
use ocas::ratelimit::RateLimiter;
use ocas::routes::account::{check_login, check_token_user, grant_tokens};
use ocas::routes::authorize::{
    check_redirect, check_request, check_submit, formerror, loginform, redirect_location,
    AuthorizeForm,
};
use ocas::routes::clients::{prepare_client, CreateClientBody};
use ocas::routes::login::{genrefresh, hashtoken as login_hashtoken};
use ocas::routes::register::{prepare_registration, RegisterBody};
use ocas::routes::token::{check_client, check_code, check_grant_type, parsebasic, require_stored};

fn is_lower_hex(s: &str, len: usize) -> bool {
    s.len() == len && s.chars().all(|c| c.is_ascii_digit() || ('a'..='f').contains(&c))
}

fn message_of(e: &AppError) -> (ErrorKind, String) {
    let (_, _, _) = e.response_parts();
    let m = match e {
        AppError::BadRequest(m)
        | AppError::Unauthorized(m)
        | AppError::Forbidden(m)
        | AppError::Conflict(m)
        | AppError::Internal(m) => m.clone(),
        AppError::TooManyRequests => String::new(),
    };
    (e.kind(), m)
}

fn user(banned: bool, verified: bool, passhash: &str) -> User {
    User {
        id: 7,
        email: "a.b@iiit.ac.in".to_string(),
        rollnum: None,
        passhash: passhash.to_string(),
        batch: None,
        branch: None,
        usertype: "faculty".to_string(),
        verified,
        banned,
        createdat: 0,
    }
}

#[test]
fn student_email_gives_rollnum_and_batch() {
    let info = parseemail("john.doe.2021101001@students.iiit.ac.in").ok().unwrap();
    assert_eq!(info.usertype, "student");
    assert_eq!(info.rollnum.as_deref(), Some("2021101001"));
    assert_eq!(info.batch, Some(2021));
}

#[test]
fn student_rollnum_is_after_last_dot_of_local_part() {
    let info = parseemail("2019111222@students.iiit.ac.in").ok().unwrap();
    assert_eq!(info.rollnum.as_deref(), Some("2019111222"));
    assert_eq!(info.batch, Some(2019));
}

#[test]
fn research_and_faculty_emails() {
    let r = parseemail("x.y@research.iiit.ac.in").ok().unwrap();
    assert_eq!(r.usertype, "student");
    assert_eq!(r.rollnum, None);
    assert_eq!(r.batch, None);
    let f = parseemail("prof@iiit.ac.in").ok().unwrap();
    assert_eq!(f.usertype, "faculty");
    assert_eq!(f.rollnum, None);
}

#[test]
fn bad_emails_are_refused() {
    let e = parseemail("no-at-sign").err().unwrap();
    assert_eq!(message_of(&e), (ErrorKind::BadRequest, "invalid email".to_string()));
    let e = parseemail("a@gmail.com").err().unwrap();
    assert_eq!(
        message_of(&e),
        (ErrorKind::BadRequest, "email must be an iiit.ac.in address".to_string())
    );
    let e = parseemail("a.abc@students.iiit.ac.in").err().unwrap();
    assert_eq!(
        message_of(&e),
        (ErrorKind::BadRequest, "cannot parse batch from roll number".to_string())
    );
    let e = parseemail("a.12@students.iiit.ac.in").err().unwrap();
    assert_eq!(e.kind(), ErrorKind::BadRequest);
}

#[test]
fn batch_takes_sign_as_i32_parse_does() {
    let info = parseemail("x.-123abc@students.iiit.ac.in").ok().unwrap();
    assert_eq!(info.batch, Some(-123));
    let info = parseemail("x.+202@students.iiit.ac.in").ok().unwrap();
    assert_eq!(info.batch, Some(202));
}

#[test]
fn domain_is_after_last_at_sign() {
    let info = parseemail("a@b@iiit.ac.in").ok().unwrap();
    assert_eq!(info.usertype, "faculty");
}

#[test]
fn error_response_parts() {
    assert_eq!(
        AppError::BadRequest("x".into()).response_parts(),
        (400, "bad_request".to_string(), "x".to_string())
    );
    assert_eq!(
        AppError::Unauthorized("u".into()).response_parts(),
        (401, "unauthorized".to_string(), "u".to_string())
    );
    assert_eq!(AppError::Forbidden("f".into()).response_parts().0, 403);
    assert_eq!(AppError::Conflict("c".into()).response_parts().1, "conflict");
    assert_eq!(
        AppError::TooManyRequests.response_parts(),
        (429, "too_many_requests".to_string(), "rate limit exceeded".to_string())
    );
    assert_eq!(
        AppError::Internal("db down".into()).response_parts(),
        (500, "internal".to_string(), "something went wrong".to_string())
    );
}

#[test]
fn blocklist_blocks_for_fifteen_minutes() {
    assert_eq!(TTL_NS, 15 * 60 * 1_000_000_000);
    let mut b = Blocklist::new();
    b.add(42, 1_000);
    assert!(b.contains(42, 1_000));
    assert!(b.contains(42, 1_000 + TTL_NS - 1));
    assert!(!b.contains(7, 1_000));
    assert!(!b.contains(42, 1_000 + TTL_NS));
    // the expired entry was dropped: adding again blocks again
    b.add(42, 1_000 + 2 * TTL_NS);
    assert!(b.contains(42, 1_000 + 2 * TTL_NS));
}

#[test]
fn blocklist_lists_active_jtis_once() {
    let s: u64 = 1_000_000_000;
    let mut b = Blocklist::default();
    b.add(1, 0);
    b.add(2, 500 * s);
    b.add(1, s / 10);
    let mut l = b.list(600 * s);
    l.sort();
    assert_eq!(l, vec![1, 2]);
    let l = b.list(950 * s);
    assert_eq!(l, vec![2]);
    assert!(b.list(2_000 * s).is_empty());
}

#[test]
fn ratelimiter_allows_max_per_window() {
    let mut r = RateLimiter::new(3, 60_000);
    let ip = (4u8, 0x7f00_0001u128);
    assert!(r.check(ip, 0));
    assert!(r.check(ip, 10));
    assert!(r.check(ip, 20));
    assert!(!r.check(ip, 30));
    // another address is independent
    assert!(r.check((4, 1), 30));
    // the first request leaves the window
    assert!(r.check(ip, 60_000));
    assert!(!r.check(ip, 60_001));
    assert!(r.check(ip, 60_010));
}

#[test]
fn ratelimiter_refused_requests_are_not_recorded() {
    let mut r = RateLimiter::new(1, 100);
    let ip = (6u8, 1u128);
    assert!(r.check(ip, 0));
    assert!(!r.check(ip, 50));
    assert!(!r.check(ip, 99));
    assert!(r.check(ip, 100));
}

#[test]
fn ratelimiter_run_counts_only_granted_requests_of_the_same_address() {
    let mut r = RateLimiter::new(2, 1_000);
    let a = (4u8, 1u128);
    let b = (4u8, 2u128);
    assert!(r.check(a, 0));
    assert!(r.check(b, 1));
    assert!(r.check(a, 2));
    assert!(r.check(b, 3));
    assert!(!r.check(a, 500));
    assert!(!r.check(b, 999));
    // the refused requests do not count: at 1000 only the grant at 0 has left
    assert!(r.check(a, 1_000));
    assert!(!r.check(a, 1_001));
    assert!(r.check(a, 1_002));
}

#[test]
fn ratelimiter_with_zero_max_refuses_all() {
    let mut r = RateLimiter::new(0, 100);
    assert!(!r.check((4, 9), 0));
}

#[test]
fn tokens_are_random_hex() {
    let a = gentoken();
    let b = gentoken();
    assert!(is_lower_hex(&a, 64));
    assert_ne!(a, b);
    assert!(is_lower_hex(&gensecret(), 64));
    assert!(is_lower_hex(&genclientid(), 8));
    assert!(is_lower_hex(&genrefresh(), 64));
}

#[test]
fn hashtoken_is_sha256_hex() {
    assert_eq!(
        hashtoken("abc"),
        "ba7816bf8f01cfea414140de5dae2223b00361a396177a9cb410ff61f20015ad"
    );
    assert_eq!(login_hashtoken("abc"), hashtoken("abc"));
    assert_eq!(
        hashtoken(""),
        "e3b0c44298fc1c149afbf4c8996fb92427ae41e4649b934ca495991b7852b855"
    );
}

#[test]
fn pkce_challenge_known_value() {
    assert_eq!(
        pkcechallenge("dBjftJeZ4CVP-mJ0c2h-WRtuNR4GGx3y1GQ7MS7V-l4"),
        "irjSD1RmRNYB-ln4ODtBpFhs67EX7GxlkiAxWpmPXfs"
    );
    assert_eq!(pkcechallenge(""), "47DEQpj8HBSa-_TImW-5JCeuQeRkm5NMpJWZG3hSuFU");
}

#[test]
fn hashed_password_verifies() {
    let h = hashpw("correct horse").ok().unwrap();
    assert!(h.starts_with("$argon2id$"));
    assert_eq!(verifypw("correct horse", &h).ok(), Some(true));
    assert_eq!(verifypw("wrong horse", &h).ok(), Some(false));
    let e = verifypw("x", "not a phc string").err().unwrap();
    assert_eq!(e.kind(), ErrorKind::Internal);
}

#[test]
fn claims_carry_the_user() {
    let mut u = user(false, true, "h");
    u.rollnum = Some("2021101001".into());
    u.batch = Some(2021);
    let c = sign_claims(&u, 1_000, 99);
    assert_eq!(c.sub, 7);
    assert_eq!(c.exp, 1_000 + ACCESS_TTL);
    assert_eq!(c.iat, 1_000);
    assert_eq!(c.jti, 99);
    assert_eq!(c.rollnum.as_deref(), Some("2021101001"));
    assert_eq!(c.batch, Some(2021));
    assert_eq!(c.usertype, "faculty");
}

#[test]
fn grant_gives_stored_hash_of_refresh() {
    let u = user(false, true, "h");
    let g = grant_tokens(&u, 1_700_000_000);
    assert_eq!(g.refreshhash, hashtoken(&g.refresh));
    assert!(is_lower_hex(&g.refresh, 64));
    assert_eq!(g.claims.jti, g.jti);
    assert_eq!(g.claims.iat, 1_700_000_000);
    assert_eq!(g.claims.exp, 1_700_000_900);
    assert_eq!(g.expiresat, 1_700_000_000 + 30 * 86_400);
}

#[test]
fn jwks_of_bad_pem_is_none() {
    assert!(jwks_checked("not a key").is_none());
}

#[test]
fn config_from_vars_checks_in_order() {
    let vars = |db: Option<&str>, port: Option<&str>, privk: Option<&str>, pubk: Option<&str>| {
        EnvVars {
            database_url: db.map(String::from),
            host: None,
            port: port.map(String::from),
            private_key: privk.map(String::from),
            public_key: pubk.map(String::from),
        }
    };
    let e = Config::from_vars(vars(Some("db"), None, None, Some("k"))).err().unwrap();
    assert_eq!(e, ConfigError::MissingPrivateKey);
    assert_eq!(e.message(), "JWT_PRIVATE_KEY must be set");
    let e = Config::from_vars(vars(Some("db"), None, Some("k"), None)).err().unwrap();
    assert_eq!(e, ConfigError::MissingPublicKey);
    let e = Config::from_vars(vars(None, None, Some("k"), Some("k"))).err().unwrap();
    assert_eq!(e, ConfigError::MissingDatabaseUrl);
    let e = Config::from_vars(vars(Some("db"), Some("80a"), Some("k"), Some("k"))).err().unwrap();
    assert_eq!(e, ConfigError::BadPort);
    let e = Config::from_vars(vars(Some("db"), Some("70000"), Some("k"), Some("k"))).err().unwrap();
    assert_eq!(e, ConfigError::BadPort);
    let e = Config::from_vars(vars(Some("db"), Some("+8080"), Some("k"), Some("k"))).err().unwrap();
    assert_eq!(e, ConfigError::BadPrivateKey);
    assert_eq!(e.message(), "invalid RSA private key");
}

#[test]
fn unescape_restores_newlines() {
    assert_eq!(ocas::config::unescape("a\\nb\\\\nc"), "a\nb\\\nc");
    assert_eq!(ocas::config::unescape("\\"), "\\");
    assert_eq!(ocas::config::unescape("\\n\\n"), "\n\n");
}

#[test]
fn login_checks_account_then_password() {
    let h = hashpw("pw123456").ok().unwrap();
    let ok = user(false, true, &h);
    assert!(check_login(Some(&ok), "pw123456").is_ok());
    let e = check_login(Some(&ok), "nope").err().unwrap();
    assert_eq!(message_of(&e), (ErrorKind::Unauthorized, "invalid credentials".into()));
    let e = check_login(None, "pw123456").err().unwrap();
    assert_eq!(message_of(&e), (ErrorKind::Unauthorized, "invalid credentials".into()));
    let banned = user(true, true, &h);
    let e = check_login(Some(&banned), "pw123456").err().unwrap();
    assert_eq!(message_of(&e), (ErrorKind::Forbidden, "account banned".into()));
    let unverified = user(false, false, &h);
    let e = check_login(Some(&unverified), "pw123456").err().unwrap();
    assert_eq!(message_of(&e), (ErrorKind::Forbidden, "email not verified".into()));
    let broken = user(false, true, "garbage");
    assert_eq!(check_login(Some(&broken), "pw").err().unwrap().kind(), ErrorKind::Internal);
}

#[test]
fn banned_user_gets_no_token() {
    let e = check_token_user(Some(&user(true, true, "h"))).err().unwrap();
    assert_eq!(message_of(&e), (ErrorKind::Forbidden, "account banned".into()));
    let e = check_token_user(None).err().unwrap();
    assert_eq!(message_of(&e), (ErrorKind::Unauthorized, "user not found".into()));
    assert!(check_token_user(Some(&user(false, false, "h"))).is_ok());
    let e = require_stored(None).err().unwrap();
    assert_eq!(message_of(&e), (ErrorKind::Unauthorized, "invalid or expired refresh token".into()));
}

#[test]
fn basic_credentials_are_parsed() {
    // "client:se:cret" in standard base64
    let (id, secret) = parsebasic(Some("Basic Y2xpZW50OnNlOmNyZXQ=")).ok().unwrap();
    assert_eq!(id, "client");
    assert_eq!(secret, "se:cret");
    let cases = [
        (None, "missing authorization header"),
        (Some("Bearer x"), "expected Basic auth"),
        (Some("Basic !!!"), "invalid base64"),
        (Some("Basic /w=="), "invalid utf8"),
        (Some("Basic bm9jb2xvbg=="), "malformed credentials"),
    ];
    for (h, msg) in cases {
        let e = parsebasic(h).err().unwrap();
        assert_eq!(message_of(&e), (ErrorKind::Unauthorized, msg.to_string()));
    }
}

#[test]
fn client_authentication() {
    let h = hashpw("s3cret").ok().unwrap();
    let c = Client {
        clientid: "abcd1234".into(),
        secrethash: h,
        redirecturis: vec!["https://app/cb".into()],
        name: "app".into(),
        createdat: 0,
    };
    assert!(check_client(Some(&c), "s3cret").is_ok());
    let e = check_client(Some(&c), "wrong").err().unwrap();
    assert_eq!(message_of(&e), (ErrorKind::Unauthorized, "invalid client credentials".into()));
    let e = check_client(None, "s3cret").err().unwrap();
    assert_eq!(message_of(&e), (ErrorKind::Unauthorized, "invalid client".into()));
    assert!(check_grant_type("authorization_code").is_ok());
    let e = check_grant_type("password").err().unwrap();
    assert_eq!(message_of(&e), (ErrorKind::BadRequest, "unsupported grant_type".into()));
}

#[test]
fn code_exchange_checks_client_redirect_and_pkce() {
    let verifier = "dBjftJeZ4CVP-mJ0c2h-WRtuNR4GGx3y1GQ7MS7V-l4";
    let code = AuthCode {
        code: "c".into(),
        clientid: "cid".into(),
        userid: 1,
        redirecturi: "https://app/cb".into(),
        codechallenge: pkcechallenge(verifier),
        expiresat: 0,
        used: true,
    };
    assert!(check_code(Some(&code), "cid", "https://app/cb", verifier).is_ok());
    let cases = [
        (None, "cid", "https://app/cb", verifier, "invalid or expired code"),
        (Some(&code), "other", "https://app/cb", verifier, "code was issued to a different client"),
        (Some(&code), "cid", "https://evil/cb", verifier, "redirect_uri mismatch"),
        (Some(&code), "cid", "https://app/cb", "wrong-verifier", "PKCE verification failed"),
    ];
    for (c, cid, uri, v, msg) in cases {
        let e = check_code(c, cid, uri, v).err().unwrap();
        assert_eq!(message_of(&e), (ErrorKind::BadRequest, msg.to_string()));
    }
}

#[test]
fn authorize_request_checks() {
    assert!(check_request("code", "S256").is_ok());
    let e = check_request("token", "S256").err().unwrap();
    assert_eq!(message_of(&e), (ErrorKind::BadRequest, "response_type must be code".into()));
    let e = check_request("code", "plain").err().unwrap();
    assert_eq!(
        message_of(&e),
        (ErrorKind::BadRequest, "code_challenge_method must be S256".into())
    );
    let c = Client {
        clientid: "cid".into(),
        secrethash: "h".into(),
        redirecturis: vec!["https://a/cb".into(), "https://b/cb".into()],
        name: "n".into(),
        createdat: 0,
    };
    assert!(check_redirect(Some(&c), "https://b/cb").is_ok());
    let e = check_redirect(Some(&c), "https://c/cb").err().unwrap();
    assert_eq!(message_of(&e), (ErrorKind::BadRequest, "redirect_uri not registered".into()));
    let e = check_redirect(None, "https://a/cb").err().unwrap();
    assert_eq!(message_of(&e), (ErrorKind::BadRequest, "unknown client_id".into()));
}

#[test]
fn authorize_submit_outcomes() {
    let h = hashpw("pw123456").ok().unwrap();
    assert_eq!(check_submit(None, "x").ok(), Some(false));
    assert_eq!(check_submit(Some(&user(false, true, &h)), "pw123456").ok(), Some(true));
    assert_eq!(check_submit(Some(&user(false, true, &h)), "bad").ok(), Some(false));
    let e = check_submit(Some(&user(true, true, &h)), "pw123456").err().unwrap();
    assert_eq!(message_of(&e), (ErrorKind::Forbidden, "account banned".into()));
}

#[test]
fn redirect_location_adds_code_and_state() {
    assert_eq!(redirect_location("https://a/cb", "C", "S"), "https://a/cb?code=C&state=S");
    assert_eq!(redirect_location("https://a/cb?x=1", "C", "S"), "https://a/cb?x=1&code=C&state=S");
}

#[test]
fn login_form_holds_parameters_and_error() {
    let html = loginform("cid", "https://a/cb", "st", "ch", "S256", "code", None);
    assert!(html.starts_with("<!doctype html>\n<html>\n<head><title>ocas \u{2014} login</title></head>"));
    assert!(html.contains("<input type=\"hidden\" name=\"client_id\" value=\"cid\">"));
    assert!(html.contains("name=\"redirect_uri\" value=\"https://a/cb\""));
    assert!(!html.contains("<p style"));
    assert!(html.ends_with("<button type=\"submit\">login</button>\n</form>\n</body>\n</html>"));
    let form = AuthorizeForm {
        client_id: "cid".into(),
        redirect_uri: "u".into(),
        state: "s".into(),
        code_challenge: "c".into(),
        code_challenge_method: "S256".into(),
        response_type: "code".into(),
        email: "e".into(),
        password: "p".into(),
    };
    let (status, html) = formerror(&form, "invalid credentials");
    assert_eq!(status, 401);
    assert!(html.contains("<h2>sign in</h2>\n<p style=\"color:#e74c3c\">invalid credentials</p>\n<input"));
}

#[test]
fn registration_checks() {
    let body = |email: &str, pw: &str, branch: Option<&str>| RegisterBody {
        email: email.into(),
        password: pw.into(),
        branch: branch.map(String::from),
    };
    let e = prepare_registration(&body("a.2021101001@students.iiit.ac.in", "short", Some("cse")))
        .err()
        .unwrap();
    assert_eq!(
        message_of(&e),
        (ErrorKind::BadRequest, "password must be at least 8 characters".into())
    );
    let e = prepare_registration(&body("a.2021101001@students.iiit.ac.in", "longenough", None))
        .err()
        .unwrap();
    assert_eq!(message_of(&e), (ErrorKind::BadRequest, "branch is required for students".into()));
    let r = prepare_registration(&body("  A.2021101001@Students.IIIT.ac.in ", "longenough", Some("cse")))
        .ok()
        .unwrap();
    assert_eq!(r.email, "a.2021101001@students.iiit.ac.in");
    assert_eq!(r.info.batch, Some(2021));
    assert_eq!(verifypw("longenough", &r.passhash).ok(), Some(true));
    let r = prepare_registration(&body("prof@iiit.ac.in", "longenough", None)).ok().unwrap();
    assert_eq!(r.info.usertype, "faculty");
    // eight bytes, fewer characters
    assert!(prepare_registration(&body("prof@iiit.ac.in", "\u{e9}\u{e9}\u{e9}\u{e9}", None)).is_ok());
}

#[test]
fn client_registration_checks() {
    let e = prepare_client(&CreateClientBody { name: "".into(), redirecturis: vec!["u".into()] })
        .err()
        .unwrap();
    assert_eq!(message_of(&e), (ErrorKind::BadRequest, "name is required".into()));
    let e = prepare_client(&CreateClientBody { name: "n".into(), redirecturis: vec![] }).err().unwrap();
    assert_eq!(
        message_of(&e),
        (ErrorKind::BadRequest, "at least one redirect uri is required".into())
    );
    let c = prepare_client(&CreateClientBody { name: "n".into(), redirecturis: vec!["u".into()] })
        .ok()
        .unwrap();
    assert!(is_lower_hex(&c.clientid, 8));
    assert!(is_lower_hex(&c.secret, 64));
    assert_eq!(verifypw(&c.secret, &c.secrethash).ok(), Some(true));
}
