//! One sign-in attempt as a state machine. The caller performs each action
//! (a redirect, a call to Google, a storage read or write, a response) and
//! feeds back what came of it; every failure ends the attempt.

use crate::clock::{expires_from_clock, now, seconds_from_now, Timestamp};
use crate::ids::{is_random_uuid, Uuid};
use crate::google::{
    authorize_url_of, authorize_url_with_state, bearer_header, build_client, google_scopes_view,
    profile_url, profile_url_view, random_state, redirect_url_for, url_accepted, GoogleClient,
    GoogleConfig,
    GoogleError, GoogleProfile, GOOGLE_AUTH_URL, GOOGLE_TOKEN_URL,
};
use crate::ids::hyphenated_text;
use crate::models::{Album, User};
use crate::provisioning::{
    find_or_create_at, opt_view, provisioned_at, AllowList, Provisioning, UserError,
};
use vstd::string::*;
use crate::token::{encode_claims, token_text, AuthUser};
use vstd::prelude::*;

verus! {

/// How long a session token stays valid, in seconds.
pub const TOKEN_TTL: u64 = 3600;

/// What a sign-in attempt runs with, fixed for the life of the process.
pub struct LoginConfig {
    pub google: GoogleClient,
    pub allowed: AllowList,
    pub token_secret: String,
    /// Where to send the browser with its token; without it the token is
    /// answered as JSON.
    pub redirect_client_url: Option<String>,
}

impl LoginConfig {
    /// The configuration with a Google client built from `google`: it fails
    /// exactly when one of the client's URLs does not parse.
    pub fn new(
        google: &GoogleConfig,
        allowed: AllowList,
        token_secret: String,
        redirect_client_url: Option<String>,
    ) -> (r: Result<LoginConfig, GoogleError>)
        ensures
            r is Ok <==> url_accepted(GOOGLE_AUTH_URL@) && url_accepted(GOOGLE_TOKEN_URL@)
                && url_accepted(redirect_url_for(google.public_api_url@)),
            r matches Err(e) ==> e == GoogleError::UrlParseError,
            r matches Ok(c) ==> {
                &&& c.google.wf()
                &&& c.google.client_id == google.client_id
                &&& c.google.client_secret == google.client_secret
                &&& c.google.redirect_url@ == redirect_url_for(google.public_api_url@)
                &&& c.allowed@ == allowed@
                &&& c.token_secret == token_secret
                &&& c.redirect_client_url == redirect_client_url
            },
    {
        let client = build_client(google)?;
        Ok(LoginConfig { google: client, allowed, token_secret, redirect_client_url })
    }
}

/// Why a sign-in attempt failed.
#[derive(Debug, Clone, Copy, PartialEq, Eq, Structural)]
pub enum LoginFailure {
    ProviderExchange,
    ProviderProfile,
    UserNotAllowed,
    Model,
    /// The clock reads before 1970 (or too far ahead for the expiry).
    Clock,
}

/// The failure that a provisioning error ends the attempt with.
pub open spec fn failure_of(e: UserError) -> LoginFailure {
    match e {
        UserError::Model => LoginFailure::Model,
        UserError::UserNotAllowed => LoginFailure::UserNotAllowed,
        UserError::Clock => LoginFailure::Clock,
    }
}

#[derive(Debug)]
pub enum LoginState {
    Start,
    AwaitingCode,
    Exchanging,
    FetchingProfile,
    Provisioning(GoogleProfile),
    Storing(User),
    Done,
    Failed(LoginFailure),
}

#[derive(Debug)]
pub enum LoginEvent {
    AuthorizeRequested,
    CodeReceived(String),
    TokenExchanged(Result<String, GoogleError>),
    ProfileFetched(Result<GoogleProfile, GoogleError>),
    UserLookedUp(Result<Option<User>, UserError>),
    UserStored(Result<(), UserError>),
}

#[derive(Debug)]
pub enum LoginAction {
    /// Answer with a temporary redirect to this URL.
    Redirect(String),
    /// Exchange this authorization code for an access token.
    ExchangeCode(String),
    /// Fetch the profile from `url` with this `Authorization` header.
    FetchProfile { url: String, authorization: String },
    /// Look up the user stored under this email.
    LookUpUser(String),
    /// Write the new user and its albums, in one transaction.
    StoreUser(User, Vec<Album>),
    /// Answer with the JSON body `{user, token}`.
    RespondJson(User, String),
    /// Answer with an error.
    Fail(LoginFailure),
    Nothing,
}

/// The answer that hands `u` a token expiring at `exp`: a redirect to the
/// client with the token in the query when one is configured, else the JSON
/// body `{user, token}`.
pub open spec fn is_token_action(cfg: LoginConfig, u: User, exp: u64, act: LoginAction) -> bool {
    let t = token_text(u.email@, hyphenated_text(u.id@), exp, cfg.token_secret@);
    &&& t.len() > 0
    &&& match cfg.redirect_client_url {
        Some(c) => (act matches LoginAction::Redirect(url) && url@ == c@ + "?token="@ + t),
        None => (act matches LoginAction::RespondJson(v, tok) && v == u && tok@ == t),
    }
}

/// What answering with a token for `u` comes to, given the expiry that the
/// clock gives (none when it reads before 1970 or the sum overflows).
pub open spec fn token_answer(
    cfg: LoginConfig,
    u: User,
    exp: Option<u64>,
    next: LoginState,
    act: LoginAction,
) -> bool {
    match exp {
        Some(t) => next == LoginState::Done && is_token_action(cfg, u, t, act),
        None => fails_with(LoginFailure::Clock, next, act),
    }
}

/// What a step may need from outside the library: a fresh anti-forgery
/// state, the clock reading, identifiers for new records, and the expiry of a
/// token issued now.
#[derive(Debug)]
pub struct Fresh {
    pub state: String,
    pub at: Option<Timestamp>,
    pub user_id: Uuid,
    pub album_id: Uuid,
    pub token_exp: Option<u64>,
}

/// What holds of every reading that [`read_fresh`] makes.
pub open spec fn fresh_readings(f: Fresh) -> bool {
    &&& f.state@.len() == 22
    &&& is_random_uuid(f.user_id@)
    &&& is_random_uuid(f.album_id@)
    &&& f.token_exp matches Some(t) ==> expires_from_clock(t, TOKEN_TTL)
}

/// Reads the clock and draws a fresh state and fresh identifiers.
pub fn read_fresh() -> (r: Fresh)
    ensures
        fresh_readings(r),
{
    Fresh {
        state: random_state(),
        at: now(),
        user_id: Uuid::new_v4(),
        album_id: Uuid::new_v4(),
        token_exp: seconds_from_now(TOKEN_TTL),
    }
}

/// Ending the attempt with `f`.
pub open spec fn fails_with(f: LoginFailure, next: LoginState, act: LoginAction) -> bool {
    next == LoginState::Failed(f) && act == LoginAction::Fail(f)
}

/// One transition of a sign-in attempt, given what was read from outside.
pub open spec fn login_step_at(
    cfg: LoginConfig,
    s: LoginState,
    e: LoginEvent,
    f: Fresh,
    next: LoginState,
    act: LoginAction,
) -> bool {
    match (s, e) {
        (LoginState::Start, LoginEvent::AuthorizeRequested) => {
            &&& next == LoginState::AwaitingCode
            &&& (act matches LoginAction::Redirect(url) && url@ == authorize_url_of(
                cfg.google.client_id@,
                cfg.google.auth_url@,
                cfg.google.redirect_url@,
                google_scopes_view(),
                f.state@,
            ))
        },
        (LoginState::AwaitingCode, LoginEvent::CodeReceived(code)) => next
            == LoginState::Exchanging && act == LoginAction::ExchangeCode(code),
        (LoginState::Exchanging, LoginEvent::TokenExchanged(Ok(t))) => {
            &&& next == LoginState::FetchingProfile
            &&& (act matches LoginAction::FetchProfile { url, authorization } && url@
                == profile_url_view() && authorization@ == "Bearer "@ + t@)
        },
        (LoginState::Exchanging, LoginEvent::TokenExchanged(Err(_))) => fails_with(
            LoginFailure::ProviderExchange,
            next,
            act,
        ),
        (LoginState::FetchingProfile, LoginEvent::ProfileFetched(Ok(p))) => {
            &&& next == LoginState::Provisioning(p)
            &&& (act matches LoginAction::LookUpUser(email) && email@ == p.email@)
        },
        (LoginState::FetchingProfile, LoginEvent::ProfileFetched(Err(_))) => fails_with(
            LoginFailure::ProviderProfile,
            next,
            act,
        ),
        (LoginState::Provisioning(p), LoginEvent::UserLookedUp(Ok(existing))) => {
            exists|r: Result<Provisioning, UserError>|
                #[trigger] provisioned_at(
                    existing,
                    p.email@,
                    opt_view(p.picture),
                    cfg.allowed@,
                    f.at,
                    f.user_id,
                    f.album_id,
                    r,
                ) && match r {
                    Ok(Provisioning::Found(u)) => token_answer(cfg, u, f.token_exp, next, act),
                    Ok(Provisioning::Created(u, albums)) => next == LoginState::Storing(u)
                        && act == LoginAction::StoreUser(u, albums),
                    Err(e) => fails_with(failure_of(e), next, act),
                }
        },
        (LoginState::Provisioning(_), LoginEvent::UserLookedUp(Err(_))) => fails_with(
            LoginFailure::Model,
            next,
            act,
        ),
        (LoginState::Storing(u), LoginEvent::UserStored(Ok(_))) => token_answer(
            cfg,
            u,
            f.token_exp,
            next,
            act,
        ),
        (LoginState::Storing(_), LoginEvent::UserStored(Err(_))) => fails_with(
            LoginFailure::Model,
            next,
            act,
        ),
        (s, _) => next == s && act == LoginAction::Nothing,
    }
}

/// One transition of a sign-in attempt, for some reading from outside.
pub open spec fn login_step(
    cfg: LoginConfig,
    s: LoginState,
    e: LoginEvent,
    next: LoginState,
    act: LoginAction,
) -> bool {
    exists|f: Fresh| fresh_readings(f) && #[trigger] login_step_at(cfg, s, e, f, next, act)
}

/// The answer that hands `u` a token expiring at `exp`.
pub fn token_response(cfg: &LoginConfig, u: User, exp: u64) -> (r: LoginAction)
    ensures
        is_token_action(*cfg, u, exp, r),
{
    let claims = AuthUser::expiring_at(&u, exp);
    let token = encode_claims(&claims, cfg.token_secret.as_str());
    match &cfg.redirect_client_url {
        Some(c) => {
            let mut url = c.clone();
            url.append("?token=");
            url.append(token.as_str());
            LoginAction::Redirect(url)
        },
        None => LoginAction::RespondJson(u, token),
    }
}

fn answer_with_token(cfg: &LoginConfig, u: User, exp: Option<u64>) -> (r: (LoginState, LoginAction))
    ensures
        token_answer(*cfg, u, exp, r.0, r.1),
{
    match exp {
        Some(t) => (LoginState::Done, token_response(cfg, u, t)),
        None => (LoginState::Failed(LoginFailure::Clock), LoginAction::Fail(LoginFailure::Clock)),
    }
}

/// Advances a sign-in attempt by one event, with what was read from
/// outside.
pub fn step_at(cfg: &LoginConfig, s: LoginState, e: LoginEvent, f: Fresh) -> (r: (
    LoginState,
    LoginAction,
))
    requires
        cfg.google.wf(),
    ensures
        login_step_at(*cfg, s, e, f, r.0, r.1),
{
    match (s, e) {
        (LoginState::Start, LoginEvent::AuthorizeRequested) => {
            let url = authorize_url_with_state(&cfg.google, f.state.as_str());
            (LoginState::AwaitingCode, LoginAction::Redirect(url))
        },
        (LoginState::AwaitingCode, LoginEvent::CodeReceived(code)) => {
            (LoginState::Exchanging, LoginAction::ExchangeCode(code))
        },
        (LoginState::Exchanging, LoginEvent::TokenExchanged(Ok(t))) => {
            let url = profile_url();
            let authorization = bearer_header(t.as_str());
            (LoginState::FetchingProfile, LoginAction::FetchProfile { url, authorization })
        },
        (LoginState::Exchanging, LoginEvent::TokenExchanged(Err(_))) => {
            (
                LoginState::Failed(LoginFailure::ProviderExchange),
                LoginAction::Fail(LoginFailure::ProviderExchange),
            )
        },
        (LoginState::FetchingProfile, LoginEvent::ProfileFetched(Ok(p))) => {
            let email = p.email.clone();
            (LoginState::Provisioning(p), LoginAction::LookUpUser(email))
        },
        (LoginState::FetchingProfile, LoginEvent::ProfileFetched(Err(_))) => {
            (
                LoginState::Failed(LoginFailure::ProviderProfile),
                LoginAction::Fail(LoginFailure::ProviderProfile),
            )
        },
        (LoginState::Provisioning(p), LoginEvent::UserLookedUp(Ok(existing))) => {
            let ghost g_existing = existing;
            let r = find_or_create_at(existing, &p, &cfg.allowed, f.at, f.user_id, f.album_id);
            assert(provisioned_at(
                g_existing,
                p.email@,
                opt_view(p.picture),
                cfg.allowed@,
                f.at,
                f.user_id,
                f.album_id,
                r,
            ));
            match r {
                Ok(Provisioning::Found(u)) => answer_with_token(cfg, u, f.token_exp),
                Ok(Provisioning::Created(u, albums)) => {
                    let stored = u.copied();
                    (LoginState::Storing(stored), LoginAction::StoreUser(u, albums))
                },
                Err(UserError::UserNotAllowed) => (
                    LoginState::Failed(LoginFailure::UserNotAllowed),
                    LoginAction::Fail(LoginFailure::UserNotAllowed),
                ),
                Err(UserError::Clock) => (
                    LoginState::Failed(LoginFailure::Clock),
                    LoginAction::Fail(LoginFailure::Clock),
                ),
                Err(UserError::Model) => (
                    LoginState::Failed(LoginFailure::Model),
                    LoginAction::Fail(LoginFailure::Model),
                ),
            }
        },
        (LoginState::Provisioning(_), LoginEvent::UserLookedUp(Err(_))) => {
            (LoginState::Failed(LoginFailure::Model), LoginAction::Fail(LoginFailure::Model))
        },
        (LoginState::Storing(u), LoginEvent::UserStored(Ok(_))) => answer_with_token(
            cfg,
            u,
            f.token_exp,
        ),
        (LoginState::Storing(_), LoginEvent::UserStored(Err(_))) => {
            (LoginState::Failed(LoginFailure::Model), LoginAction::Fail(LoginFailure::Model))
        },
        (s, _) => (s, LoginAction::Nothing),
    }
}

/// Advances a sign-in attempt by one event, reading the clock and drawing
/// fresh values as [`read_fresh`] does.
pub fn step(cfg: &LoginConfig, s: LoginState, e: LoginEvent) -> (r: (LoginState, LoginAction))
    requires
        cfg.google.wf(),
    ensures
        login_step(*cfg, s, e, r.0, r.1),
{
    let f = read_fresh();
    let ghost g = f;
    let r = step_at(cfg, s, e, f);
    assert(login_step_at(*cfg, s, e, g, r.0, r.1));
    r
}

/// `states` and `actions` are what the events bring about, one step each,
/// from `states[0]`.
pub open spec fn is_run(
    cfg: LoginConfig,
    events: Seq<LoginEvent>,
    states: Seq<LoginState>,
    actions: Seq<LoginAction>,
) -> bool {
    &&& states.len() == events.len() + 1
    &&& actions.len() == events.len()
    &&& forall|i: int|
        0 <= i < events.len() ==> login_step(
            cfg,
            states[i],
            #[trigger] events[i],
            states[i + 1],
            actions[i],
        )
}

/// Whether an action writes to storage.
pub open spec fn writes(a: LoginAction) -> bool {
    a is StoreUser
}

proof fn lemma_stays_failed(
    cfg: LoginConfig,
    events: Seq<LoginEvent>,
    states: Seq<LoginState>,
    actions: Seq<LoginAction>,
    k: int,
)
    requires
        is_run(cfg, events, states, actions),
        1 <= k <= events.len(),
        states[1] == LoginState::Failed(LoginFailure::ProviderExchange),
    ensures
        states[k] == LoginState::Failed(LoginFailure::ProviderExchange),
    decreases k,
{
    if k > 1 {
        lemma_stays_failed(cfg, events, states, actions, k - 1);
        assert(login_step(cfg, states[k - 1], events[k - 1], states[k], actions[k - 1]));
    }
}

/// Once the code exchange has failed, the attempt stays failed whatever
/// follows, and nothing is written to storage.
pub proof fn failed_exchange_writes_nothing(
    cfg: LoginConfig,
    events: Seq<LoginEvent>,
    states: Seq<LoginState>,
    actions: Seq<LoginAction>,
)
    requires
        is_run(cfg, events, states, actions),
        events.len() > 0,
        states[0] == LoginState::Exchanging,
        events[0] matches LoginEvent::TokenExchanged(Err(_)),
    ensures
        actions[0] == LoginAction::Fail(LoginFailure::ProviderExchange),
        forall|i: int|
            0 < i <= events.len() ==> #[trigger] states[i] == LoginState::Failed(
                LoginFailure::ProviderExchange,
            ),
        forall|i: int| 0 <= i < events.len() ==> !writes(#[trigger] actions[i]),
{
    assert(login_step(cfg, states[0], events[0], states[1], actions[0]));
    assert forall|i: int| 0 < i <= events.len() implies #[trigger] states[i] == LoginState::Failed(
        LoginFailure::ProviderExchange,
    ) by {
        lemma_stays_failed(cfg, events, states, actions, i);
    }
    assert forall|i: int| 0 <= i < events.len() implies !writes(#[trigger] actions[i]) by {
        if i > 0 {
            lemma_stays_failed(cfg, events, states, actions, i);
            assert(login_step(cfg, states[i], events[i], states[i + 1], actions[i]));
        }
    }
}

/// Storage is written only for a profile whose email is not stored yet and
/// is on the allow-list, and what is written is one user with that email and
/// its default album.
pub proof fn writes_only_for_allowed_new_email(
    cfg: LoginConfig,
    s: LoginState,
    e: LoginEvent,
    next: LoginState,
    act: LoginAction,
)
    requires
        login_step(cfg, s, e, next, act),
        writes(act),
    ensures
        s matches LoginState::Provisioning(p) && {
            &&& e == LoginEvent::UserLookedUp(Ok(None))
            &&& cfg.allowed@.contains(p.email@)
            &&& act matches LoginAction::StoreUser(u, albums) && u.email@ == p.email@
                && albums@.len() == 1 && albums@[0].user_id == u.id
        },
{
}

} // verus!
