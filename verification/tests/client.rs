use ocas::auth::caches::{verify_step, BlocklistCache, JwkText, JwksCache, VerifyAction, VerifyEvent, VerifyPhase};
use ocas::auth::claims::{Claims, PersonType};
use ocas::auth::config::{OcasConfig, OcasConfigError, OcasEnv};
use ocas::auth::cookies::{clearcookie, cookie, extractcookie, getcookie, has_cookie, i64_decimal, tokenfrombearerparts, tokenfromcookie};
use ocas::auth::error::AuthError;
use ocas::auth::extractor::{check_revocation, require_faculty, require_student, token_of_request};
use ocas::auth::mock::{faculty, student, MockClaims};
use ocas::auth::refresh::{refresh_plan, refreshed_cookies};
use ocas::auth::router::{
    authorize_url, basic_authorization, check_callback, endpoint, genstate, genverifier,
    refresh_request_body, token_request_body,
};
use ocas::hash::pkcechallenge;
use ocas::routes::token::parsebasic;

fn config() -> OcasConfig {
    OcasConfig {
        url: "https://auth.example".into(),
        clientid: "cid".into(),
        clientsecret: "sec".into(),
        callbackurl: "https://app/auth/callback".into(),
        blocklist: true,
        afterlogin: "/".into(),
        afterlogout: "/".into(),
    }
}

fn claims(t: PersonType) -> Claims {
    Claims {
        sub: 1,
        rollnum: None,
        email: "e".into(),
        batch: None,
        branch: None,
        persontype: t,
        exp: 0,
        iat: 0,
        jti: 2,
    }
}

fn status_and_message(e: &AuthError) -> (u16, String) {
    let (s, _, m) = e.response_parts();
    (s, m)
}

#[test]
fn cookies_are_found_by_name() {
    let h = "theme=dark; ocas_access=tok123;  ocas_refresh=r1 ";
    assert_eq!(getcookie(h, "ocas_access").as_deref(), Some("tok123"));
    assert_eq!(getcookie(h, "ocas_refresh").as_deref(), Some("r1"));
    assert_eq!(getcookie(h, "theme").as_deref(), Some("dark"));
    assert_eq!(getcookie(h, "missing"), None);
    assert_eq!(getcookie("", "a"), None);
    assert_eq!(getcookie("a=1; a=2", "a").as_deref(), Some("1"));
    assert_eq!(getcookie("ab=1; a=", "a").as_deref(), Some(""));
    assert_eq!(extractcookie(h, "ocas_refresh").as_deref(), Some("r1"));
    assert!(has_cookie(h, "ocas_access"));
    assert!(!has_cookie("ocas_accessx=1", "ocas_access"));
}

#[test]
fn cookie_values_round_trip() {
    let set = cookie("ocas_state", "abc", 600);
    assert_eq!(set, "ocas_state=abc; HttpOnly; SameSite=Lax; Path=/; Max-Age=600");
    let sent = set.split(';').next().unwrap().to_string();
    assert_eq!(getcookie(&format!("x=1; {sent}"), "ocas_state").as_deref(), Some("abc"));
    assert_eq!(clearcookie("ocas_access"), "ocas_access=; HttpOnly; SameSite=Lax; Path=/; Max-Age=0");
    assert_eq!(i64_decimal(-42), "-42");
    assert_eq!(i64_decimal(i64::MIN), "-9223372036854775808");
    assert_eq!(i64_decimal(2592000), "2592000");
}

#[test]
fn set_cookie_text_reads_back() {
    let set = cookie("ocas_access", "tok.en-1", 900);
    assert_eq!(getcookie(&set, "ocas_access").as_deref(), Some("tok.en-1"));
    let cleared = clearcookie("ocas_refresh");
    assert_eq!(getcookie(&cleared, "ocas_refresh").as_deref(), Some(""));
}

#[test]
fn tokens_come_from_bearer_then_cookie() {
    assert_eq!(tokenfrombearerparts(Some("Bearer abc")).as_deref(), Some("abc"));
    assert_eq!(tokenfrombearerparts(Some("bearer abc")), None);
    assert_eq!(tokenfrombearerparts(None), None);
    assert_eq!(tokenfromcookie(Some("ocas_access=t")).as_deref(), Some("t"));
    assert_eq!(token_of_request(Some("Bearer a"), Some("ocas_access=b")).ok().as_deref(), Some("a"));
    assert_eq!(token_of_request(Some("Basic a"), Some("ocas_access=b")).ok().as_deref(), Some("b"));
    let e = token_of_request(None, Some("x=1")).err().unwrap();
    assert_eq!(status_and_message(&e), (401, "no access token".to_string()));
}

#[test]
fn revoked_and_wrong_kind_are_refused() {
    assert!(check_revocation(true, false).is_ok());
    assert!(check_revocation(false, true).is_ok());
    let e = check_revocation(true, true).err().unwrap();
    assert_eq!(status_and_message(&e), (401, "token revoked".to_string()));
    assert!(require_student(claims(PersonType::Student)).is_ok());
    let e = require_student(claims(PersonType::Faculty)).err().unwrap();
    assert_eq!(status_and_message(&e), (403, "students only".to_string()));
    assert!(require_faculty(claims(PersonType::Faculty)).is_ok());
    let e = require_faculty(claims(PersonType::Student)).err().unwrap();
    assert_eq!(status_and_message(&e), (403, "faculty only".to_string()));
}

#[test]
fn client_config_defaults() {
    let env = |url: Option<&str>, bl: Option<&str>| OcasEnv {
        url: url.map(String::from),
        client_id: Some("id".into()),
        client_secret: Some("s".into()),
        callback_url: Some("cb".into()),
        blocklist: bl.map(String::from),
        after_login: None,
        after_logout: Some("/bye".into()),
    };
    let c = OcasConfig::from_vars(env(Some("u"), None)).ok().unwrap();
    assert!(c.blocklist);
    assert_eq!(c.afterlogin, "/");
    assert_eq!(c.afterlogout, "/bye");
    assert!(!OcasConfig::from_vars(env(Some("u"), Some("false"))).ok().unwrap().blocklist);
    assert!(OcasConfig::from_vars(env(Some("u"), Some("no"))).ok().unwrap().blocklist);
    let e = OcasConfig::from_vars(env(None, None)).err().unwrap();
    assert_eq!(e, OcasConfigError::MissingUrl);
    assert_eq!(e.message(), "OCAS_URL must be set");
}

#[test]
fn blocklist_cache_replaces_contents() {
    let mut b = BlocklistCache::new("https://auth.example");
    assert_eq!(b.url(), "https://auth.example/blocklist");
    assert!(!b.contains(5));
    b.replace(vec![5, 6, 5]);
    assert!(b.contains(5) && b.contains(6));
    b.replace(vec![7]);
    assert!(!b.contains(5) && b.contains(7));
}

#[test]
fn jwks_cache_installs_first_key() {
    let mut j = JwksCache::new("https://auth.example");
    assert_eq!(j.url(), "https://auth.example/jwks.json");
    assert!(!j.has_key());
    assert_eq!(j.install(&vec![]).err().as_deref(), Some("no keys in jwks"));
    assert!(j.install(&vec![JwkText { n: "!!".into(), e: "AQAB".into() }]).is_err());
    assert!(!j.has_key());
    assert!(j.install(&vec![JwkText { n: "AQAB".into(), e: "AQAB".into() }]).is_ok());
    assert!(j.has_key() && j.key().is_some());
}

#[test]
fn verify_fetches_when_needed_and_retries_once() {
    let (p, a) = verify_step(VerifyPhase::Start, VerifyEvent::Begin { has_key: false });
    assert_eq!(p, VerifyPhase::InitialFetch);
    assert!(matches!(a, VerifyAction::Fetch));
    let (p, a) = verify_step(p, VerifyEvent::Fetched(Ok(())));
    assert_eq!(p, VerifyPhase::FirstDecode);
    assert!(matches!(a, VerifyAction::Decode));
    let (p, a) = verify_step(p, VerifyEvent::Decoded(Err("bad".into())));
    assert_eq!(p, VerifyPhase::Refetch);
    assert!(matches!(a, VerifyAction::Fetch));
    let (p, a) = verify_step(p, VerifyEvent::Fetched(Ok(())));
    assert_eq!(p, VerifyPhase::SecondDecode);
    assert!(matches!(a, VerifyAction::Decode));
    let (p, a) = verify_step(p, VerifyEvent::Decoded(Err("still bad".into())));
    assert_eq!(p, VerifyPhase::Done);
    match a {
        VerifyAction::Finish(Err(m)) => assert_eq!(m, "still bad"),
        _ => panic!("expected the second failure"),
    }
    let (p, a) = verify_step(VerifyPhase::Start, VerifyEvent::Begin { has_key: true });
    assert_eq!(p, VerifyPhase::FirstDecode);
    assert!(matches!(a, VerifyAction::Decode));
    let (p, a) = verify_step(p, VerifyEvent::Decoded(Ok(claims(PersonType::Student))));
    assert_eq!(p, VerifyPhase::Done);
    assert!(matches!(a, VerifyAction::Finish(Ok(_))));
    let (_, a) = verify_step(VerifyPhase::InitialFetch, VerifyEvent::Fetched(Err("down".into())));
    match a {
        VerifyAction::Finish(Err(m)) => assert_eq!(m, "down"),
        _ => panic!("expected the fetch error"),
    }
}

#[test]
fn login_redirect_and_callback() {
    let c = config();
    let v = genverifier();
    assert_eq!(v.len(), 43);
    let s = genstate();
    assert_eq!(s.len(), 32);
    let url = authorize_url(&c, &s, &pkcechallenge(&v));
    assert_eq!(
        url,
        format!(
            "https://auth.example/authorize?client_id=cid&redirect_uri=https://app/auth/callback&state={}&code_challenge={}&code_challenge_method=S256&response_type=code",
            s,
            pkcechallenge(&v)
        )
    );
    let cookies = format!("ocas_verifier={v}; ocas_state={s}");
    assert_eq!(check_callback(&cookies, &s).ok(), Some(v.clone()));
    assert_eq!(check_callback(&cookies, "other").err().as_deref(), Some("state mismatch"));
    assert_eq!(check_callback("", &s).err().as_deref(), Some("missing state cookie"));
    assert_eq!(
        check_callback(&format!("ocas_state={s}"), &s).err().as_deref(),
        Some("missing verifier cookie")
    );
    assert_eq!(
        token_request_body("CODE", "https://app/cb", "VER"),
        "grant_type=authorization_code&code=CODE&redirect_uri=https://app/cb&code_verifier=VER"
    );
    assert_eq!(refresh_request_body("R"), "{\"refresh\":\"R\"}");
    assert_eq!(endpoint(&c, "/token"), "https://auth.example/token");
}

#[test]
fn client_credentials_are_accepted_by_server() {
    let header = basic_authorization("cid", "se:cret");
    assert_eq!(header, "Basic Y2lkOnNlOmNyZXQ=");
    let (id, secret) = parsebasic(Some(&header)).ok().unwrap();
    assert_eq!((id.as_str(), secret.as_str()), ("cid", "se:cret"));
}

#[test]
fn refresh_only_without_access_cookie() {
    assert_eq!(refresh_plan("ocas_refresh=r", true).as_deref(), Some("r"));
    assert_eq!(refresh_plan("ocas_access=a; ocas_refresh=r", true), None);
    assert_eq!(refresh_plan("ocas_refresh=r", false), None);
    assert_eq!(refresh_plan("x=1", true), None);
    let (a, r) = refreshed_cookies("A", "R");
    assert_eq!(a, "ocas_access=A; HttpOnly; SameSite=Lax; Path=/; Max-Age=900");
    assert_eq!(r, "ocas_refresh=R; HttpOnly; SameSite=Lax; Path=/; Max-Age=2592000");
}

#[test]
fn mock_claims() {
    let s = student("2022101005", "cse");
    assert_eq!(s.claims.batch, Some(2022));
    assert_eq!(s.claims.email, "test.2022101005@students.iiit.ac.in");
    assert_eq!(s.claims.persontype, PersonType::Student);
    assert!(s.claims.exp - s.claims.iat >= 899 && s.claims.exp - s.claims.iat <= 901);
    assert_eq!(student("ab", "ece").claims.batch, Some(2021));
    let f = faculty("prof@iiit.ac.in");
    assert_eq!(f.claims.persontype, PersonType::Faculty);
    assert_eq!(f.claims.rollnum, None);
    assert_eq!(MockClaims::bearer("tok"), "Bearer tok");
    assert_eq!(PersonType::Student.as_str(), "student");
}
