use photo_api::clock::Timestamp;
use photo_api::login::{step_at, Fresh};
use photo_api::ids::Uuid;
use photo_api::connection::{get_database_url, ConnectionOptions};
use photo_api::contact::{contact_mail, BookMeRequest};
use photo_api::google::{
    authorize_url_with_state, bearer_header, build_client, gen_authorize_url, profile_url, Code,
    GoogleConfig, GoogleError, GoogleProfile, GoogleRedirectExtractor,
};
use photo_api::login::{
    step, token_response, LoginAction, LoginConfig, LoginEvent, LoginFailure, LoginState,
};
use photo_api::token::{encode_claims, AuthUser};
use photo_api::models::User;
use photo_api::provisioning::AllowList;

fn config(public_api_url: &str) -> GoogleConfig {
    GoogleConfig {
        client_id: String::from("client-1"),
        client_secret: String::from("secret-1"),
        public_api_url: String::from(public_api_url),
    }
}

fn login_config(redirect_client_url: Option<&str>) -> LoginConfig {
    LoginConfig::new(
        &config("http://localhost:7878"),
        AllowList::new(vec![String::from("a@x.com")]),
        String::from("s3cret"),
        redirect_client_url.map(String::from),
    )
    .unwrap()
}

fn profile(email: &str) -> GoogleProfile {
    GoogleProfile {
        id: String::from("1"),
        email: String::from(email),
        family_name: None,
        gender: None,
        given_name: None,
        locale: None,
        picture: None,
        verified_email: true,
    }
}

#[test]
fn client_uses_redirect_under_public_url() {
    let c = build_client(&config("http://localhost:7878")).unwrap();
    assert_eq!(c.redirect_url, "http://localhost:7878/google/redirect");
    assert_eq!(c.auth_url, "https://accounts.google.com/o/oauth2/v2/auth");
    assert_eq!(c.token_url, "https://www.googleapis.com/oauth2/v3/token");
    assert_eq!(c.client_id, "client-1");
}

#[test]
fn client_refuses_unparsable_public_url() {
    assert_eq!(build_client(&config("not a url")), Err(GoogleError::UrlParseError));
    let r = LoginConfig::new(&config("not a url"), AllowList::new(vec![]), String::new(), None);
    assert!(matches!(r, Err(GoogleError::UrlParseError)));
}

#[test]
fn authorize_url_carries_client_state_and_scopes() {
    let c = build_client(&config("http://localhost:7878")).unwrap();
    let url = authorize_url_with_state(&c, "st4te");
    assert!(url.starts_with("https://accounts.google.com/o/oauth2/v2/auth?"));
    assert!(url.contains("response_type=code"));
    assert!(url.contains("client_id=client-1"));
    assert!(url.contains("state=st4te"));
    assert!(url.contains("redirect_uri=http%3A%2F%2Flocalhost%3A7878%2Fgoogle%2Fredirect"));
    assert!(url.contains(
        "scope=https%3A%2F%2Fwww.googleapis.com%2Fauth%2Fuserinfo.email+https%3A%2F%2Fwww.googleapis.com%2Fauth%2Fuserinfo.profile"
    ));
}

#[test]
fn generated_state_is_fresh() {
    let c = build_client(&config("http://localhost:7878")).unwrap();
    let (url1, s1) = gen_authorize_url(&c);
    let (_, s2) = gen_authorize_url(&c);
    assert_eq!(s1.len(), 22);
    assert_ne!(s1, s2);
    assert!(url1.contains(&format!("state={}", s1)));
}

#[test]
fn profile_request_parts() {
    assert_eq!(profile_url(), "https://www.googleapis.com/oauth2/v1/userinfo?alt=json");
    assert_eq!(bearer_header("tok"), "Bearer tok");
}

#[test]
fn redirect_query_gives_code() {
    let q = GoogleRedirectExtractor {
        state: String::from("s"),
        code: String::from("c0de"),
        scope: vec![],
        prompt: String::from("none"),
        authuser: 0,
    };
    assert_eq!(q.code(), "c0de");
}

fn run_to_lookup(cfg: &LoginConfig, email: &str) -> LoginState {
    let (s, a) = step(cfg, LoginState::AwaitingCode, LoginEvent::CodeReceived(String::from("c")));
    assert!(matches!(s, LoginState::Exchanging));
    assert!(matches!(a, LoginAction::ExchangeCode(ref c) if c == "c"));
    let (s, a) = step(cfg, s, LoginEvent::TokenExchanged(Ok(String::from("tok"))));
    assert!(matches!(s, LoginState::FetchingProfile));
    match a {
        LoginAction::FetchProfile { url, authorization } => {
            assert_eq!(url, "https://www.googleapis.com/oauth2/v1/userinfo?alt=json");
            assert_eq!(authorization, "Bearer tok");
        }
        other => panic!("unexpected {:?}", other),
    }
    let (s, a) = step(cfg, s, LoginEvent::ProfileFetched(Ok(profile(email))));
    assert!(matches!(a, LoginAction::LookUpUser(ref e) if e == email));
    s
}

#[test]
fn allowed_email_signs_in_with_token() {
    let cfg = login_config(None);
    let s = run_to_lookup(&cfg, "a@x.com");
    let (s, a) = step(&cfg, s, LoginEvent::UserLookedUp(Ok(None)));
    let created = match a {
        LoginAction::StoreUser(u, albums) => {
            assert_eq!(albums.len(), 1);
            u
        }
        other => panic!("unexpected {:?}", other),
    };
    assert!(matches!(s, LoginState::Storing(_)));
    let (s, a) = step(&cfg, s, LoginEvent::UserStored(Ok(())));
    assert!(matches!(s, LoginState::Done));
    match a {
        LoginAction::RespondJson(u, token) => {
            assert_eq!(u.email, "a@x.com");
            assert_eq!(u, created);
            assert!(!token.is_empty());
        }
        other => panic!("unexpected {:?}", other),
    }
}

#[test]
fn stored_user_signs_in_with_redirect() {
    let cfg = login_config(Some("https://app.example/login"));
    let s = run_to_lookup(&cfg, "z@x.com");
    let existing = User::new(String::from("z@x.com"), None).unwrap();
    let (s, a) = step(&cfg, s, LoginEvent::UserLookedUp(Ok(Some(existing))));
    assert!(matches!(s, LoginState::Done));
    match a {
        LoginAction::Redirect(url) => {
            assert!(url.starts_with("https://app.example/login?token="));
            assert!(url.len() > "https://app.example/login?token=".len());
        }
        other => panic!("unexpected {:?}", other),
    }
}

#[test]
fn unlisted_email_is_refused_without_writes() {
    let cfg = login_config(None);
    let s = run_to_lookup(&cfg, "b@x.com");
    let (s, a) = step(&cfg, s, LoginEvent::UserLookedUp(Ok(None)));
    assert!(matches!(s, LoginState::Failed(LoginFailure::UserNotAllowed)));
    assert!(matches!(a, LoginAction::Fail(LoginFailure::UserNotAllowed)));
}

#[test]
fn failed_exchange_fails_without_writes() {
    let cfg = login_config(None);
    let (s, a) = step(
        &cfg,
        LoginState::Exchanging,
        LoginEvent::TokenExchanged(Err(GoogleError::OAuth2Request)),
    );
    assert!(matches!(s, LoginState::Failed(LoginFailure::ProviderExchange)));
    assert!(matches!(a, LoginAction::Fail(LoginFailure::ProviderExchange)));
    let (s, a) = step(&cfg, s, LoginEvent::UserLookedUp(Ok(None)));
    assert!(matches!(s, LoginState::Failed(LoginFailure::ProviderExchange)));
    assert!(matches!(a, LoginAction::Nothing));
}

#[test]
fn failed_profile_and_storage_end_the_attempt() {
    let cfg = login_config(None);
    let (s, a) = step(
        &cfg,
        LoginState::FetchingProfile,
        LoginEvent::ProfileFetched(Err(GoogleError::JsonParse)),
    );
    assert!(matches!(s, LoginState::Failed(LoginFailure::ProviderProfile)));
    assert!(matches!(a, LoginAction::Fail(LoginFailure::ProviderProfile)));
    let s = run_to_lookup(&cfg, "a@x.com");
    let (s, a) = step(&cfg, s, LoginEvent::UserLookedUp(Err(photo_api::provisioning::UserError::Model)));
    assert!(matches!(s, LoginState::Failed(LoginFailure::Model)));
    assert!(matches!(a, LoginAction::Fail(LoginFailure::Model)));
}

#[test]
fn authorize_redirects_to_google() {
    let cfg = login_config(None);
    let (s, a) = step(&cfg, LoginState::Start, LoginEvent::AuthorizeRequested);
    assert!(matches!(s, LoginState::AwaitingCode));
    match a {
        LoginAction::Redirect(url) => {
            assert!(url.starts_with("https://accounts.google.com/o/oauth2/v2/auth?"))
        }
        other => panic!("unexpected {:?}", other),
    }
}

#[test]
fn database_url_prefers_argument_then_environment() {
    assert_eq!(get_database_url(Some(String::from("a.db")), Some(String::from("b.db"))), "a.db");
    assert_eq!(get_database_url(None, Some(String::from("b.db"))), "b.db");
    assert_eq!(get_database_url(None, None), "./photos.db");
}

#[test]
fn connection_pragmas() {
    assert_eq!(
        ConnectionOptions::default().pragmas(),
        vec![
            String::from("PRAGMA foreign_keys = ON;"),
            String::from("PRAGMA busy_timeout = 100;")
        ]
    );
    let none = ConnectionOptions { enable_foreign_keys: false, busy_timeout: None };
    assert!(none.pragmas().is_empty());
}

#[test]
fn contact_mail_fills_defaults() {
    let req = BookMeRequest {
        name: String::from("Ann"),
        email: String::from("ann@x.com"),
        message: String::from("Hello"),
        phone: Some(String::from("123")),
        date: None,
        venue: None,
        city: Some(String::from("Lisbon")),
    };
    let mail = contact_mail(&req, "mg.example", "owner@x.com");
    assert_eq!(mail.from, "Website <website@mg.example>");
    assert_eq!(mail.to, "owner@x.com");
    assert_eq!(mail.subject, "Contact from Website");
    assert!(mail.html.contains("<span>Ann</span>"));
    assert!(mail.html.contains("<span>ann@x.com</span>"));
    assert!(mail.html.contains("<span>123</span>"));
    assert!(mail.html.contains("<strong>Date:</strong>\n                        <span>Not specified.</span>"));
    assert!(mail.html.contains("<span>Lisbon</span>"));
    assert!(mail.html.starts_with("\n                <!DOCTYPE html>"));
    assert!(mail.html.ends_with("</html>\n        "));
}

#[test]
fn token_response_carries_the_signed_claims() {
    let u = User::new(String::from("a@x.com"), None).unwrap();
    let expected = encode_claims(&AuthUser::expiring_at(&u, 1700003600), "s3cret");
    match token_response(&login_config(None), u.clone(), 1700003600) {
        LoginAction::RespondJson(v, token) => {
            assert_eq!(v, u);
            assert_eq!(token, expected);
        }
        other => panic!("unexpected {:?}", other),
    }
    match token_response(&login_config(Some("https://app.example/login")), u, 1700003600) {
        LoginAction::Redirect(url) => {
            assert_eq!(url, format!("https://app.example/login?token={}", expected))
        }
        other => panic!("unexpected {:?}", other),
    }
}

fn fresh(at: Option<Timestamp>, token_exp: Option<u64>) -> Fresh {
    Fresh {
        state: String::from("0123456789abcdefghijkl"),
        at,
        user_id: Uuid::from_u128(7),
        album_id: Uuid::from_u128(8),
        token_exp,
    }
}

#[test]
fn step_at_is_exact_for_given_readings() {
    let cfg = login_config(None);
    let at = Timestamp { secs: 1_700_000_000, nanos: 0 };
    let s = run_to_lookup(&cfg, "a@x.com");
    let (s, a) = step_at(&cfg, s, LoginEvent::UserLookedUp(Ok(None)), fresh(Some(at), Some(1)));
    let u = match a {
        LoginAction::StoreUser(u, albums) => {
            assert_eq!(u.id, Uuid::from_u128(7));
            assert_eq!(albums[0].id, Uuid::from_u128(8));
            u
        }
        other => panic!("unexpected {:?}", other),
    };
    let (s, a) = step_at(&cfg, s, LoginEvent::UserStored(Ok(())), fresh(None, Some(1700003600)));
    assert!(matches!(s, LoginState::Done));
    let expected = encode_claims(&AuthUser::expiring_at(&u, 1700003600), "s3cret");
    assert!(matches!(a, LoginAction::RespondJson(_, ref t) if *t == expected));
    let (_, a) = step_at(&cfg, LoginState::Start, LoginEvent::AuthorizeRequested, fresh(None, None));
    assert!(matches!(a, LoginAction::Redirect(ref url) if url.contains("state=0123456789abcdefghijkl")));
}

#[test]
fn step_at_fails_only_for_missing_clock() {
    let cfg = login_config(None);
    let s = run_to_lookup(&cfg, "a@x.com");
    let (s, a) = step_at(&cfg, s, LoginEvent::UserLookedUp(Ok(None)), fresh(None, None));
    assert!(matches!(s, LoginState::Failed(LoginFailure::Clock)));
    assert!(matches!(a, LoginAction::Fail(LoginFailure::Clock)));
    let existing = User::new(String::from("a@x.com"), None).unwrap();
    let s = run_to_lookup(&cfg, "a@x.com");
    let (s, _) = step_at(&cfg, s, LoginEvent::UserLookedUp(Ok(Some(existing))), fresh(None, None));
    assert!(matches!(s, LoginState::Failed(LoginFailure::Clock)));
}
