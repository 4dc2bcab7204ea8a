//! The Google side of sign-in: the client configuration, the authorization
//! URL a browser is sent to, and the profile the provider reports.

use crate::models::User;
use crate::provisioning::{opt_view, Profile};
use vstd::string::*;
use vstd::prelude::*;

verus! {

pub const GOOGLE_AUTH_URL: &'static str = "https://accounts.google.com/o/oauth2/v2/auth";

pub const GOOGLE_TOKEN_URL: &'static str = "https://www.googleapis.com/oauth2/v3/token";

pub const GOOGLE_PEOPLE_ENDPOINT: &'static str = "https://www.googleapis.com";

pub const EMAIL_SCOPE: &'static str = "https://www.googleapis.com/auth/userinfo.email";

pub const PROFILE_SCOPE: &'static str = "https://www.googleapis.com/auth/userinfo.profile";

/// Whether `url::Url::parse` accepts a text.
pub uninterp spec fn url_accepted(s: Seq<char>) -> bool;

/// Relies on `url::Url::parse`, which `oauth2`'s URL types also use.
#[verifier::external_body]
fn parses_as_url(s: &str) -> (r: bool)
    ensures
        r == url_accepted(s@),
{
    url::Url::parse(s).is_ok()
}

/// The URL that `oauth2` builds to send a browser to the provider.
pub uninterp spec fn authorize_url_of(
    client_id: Seq<char>,
    auth_url: Seq<char>,
    redirect_url: Seq<char>,
    scopes: Seq<Seq<char>>,
    state: Seq<char>,
) -> Seq<char>;

/// Relies on `oauth2::Client::authorize_url` with the given state and
/// scopes, read through `AuthorizationRequest::url`; the endpoint and
/// redirect texts parse, as `requires` demands, so no fallback is taken.
#[verifier::external_body]
fn oauth2_authorize_url(
    client_id: &str,
    auth_url: &str,
    redirect_url: &str,
    scopes: &Vec<String>,
    state: &str,
) -> (r: String)
    requires
        url_accepted(auth_url@),
        url_accepted(redirect_url@),
    ensures
        r@ == authorize_url_of(
            client_id@,
            auth_url@,
            redirect_url@,
            scopes@.map_values(|s: String| s@),
            state@,
        ),
{
    let (auth, redirect) = match (
        oauth2::AuthUrl::new(auth_url.to_string()),
        oauth2::RedirectUrl::new(redirect_url.to_string()),
    ) {
        (Ok(a), Ok(r)) => (a, r),
        _ => return String::new(),
    };
    let client = oauth2::basic::BasicClient::new(oauth2::ClientId::new(client_id.to_string()), None, auth, None)
        .set_redirect_uri(redirect);
    let request = client.authorize_url(|| oauth2::CsrfToken::new(state.to_string()));
    let (url, _) = request.add_scopes(scopes.iter().map(|s| oauth2::Scope::new(s.clone()))).url();
    url.to_string()
}

/// Relies on `oauth2::CsrfToken::new_random`: 16 random bytes in unpadded
/// URL-safe base64, so 22 characters.
#[verifier::external_body]
pub(crate) fn random_state() -> (r: String)
    ensures
        r@.len() == 22,
{
    oauth2::CsrfToken::new_random().secret().clone()
}

/// Why a step of the exchange with Google failed.
#[derive(Debug, Clone, Copy, PartialEq, Eq, Structural)]
pub enum GoogleError {
    /// A configured URL does not parse.
    UrlParseError,
    /// The authorization code could not be exchanged for a token.
    OAuth2Request,
    /// The profile request could not be completed.
    ReqwestIssue,
    /// The HTTP client could not be built.
    ReqwestBuild,
    /// The profile response is not the expected JSON.
    JsonParse,
}

/// What the process is configured with to talk to Google.
#[derive(Debug, Clone, PartialEq)]
pub struct GoogleConfig {
    pub client_id: String,
    pub client_secret: String,
    /// Where this API is reachable from browsers.
    pub public_api_url: String,
}

/// Where Google sends the browser back to.
pub open spec fn redirect_url_for(public_api_url: Seq<char>) -> Seq<char> {
    public_api_url + "/google/redirect"@
}

/// An OAuth client for Google whose URLs all parse.
#[derive(Debug, Clone, PartialEq)]
pub struct GoogleClient {
    pub client_id: String,
    pub client_secret: String,
    pub auth_url: String,
    pub token_url: String,
    pub redirect_url: String,
}

impl GoogleClient {
    pub open spec fn wf(&self) -> bool {
        &&& url_accepted(self.auth_url@)
        &&& url_accepted(self.token_url@)
        &&& url_accepted(self.redirect_url@)
    }
}

/// Builds the Google client from the configuration: it fails exactly when
/// one of its URLs does not parse.
pub fn build_client(config: &GoogleConfig) -> (r: Result<GoogleClient, GoogleError>)
    ensures
        r is Ok <==> url_accepted(GOOGLE_AUTH_URL@) && url_accepted(GOOGLE_TOKEN_URL@)
            && url_accepted(redirect_url_for(config.public_api_url@)),
        r matches Err(e) ==> e == GoogleError::UrlParseError,
        r matches Ok(c) ==> {
            &&& c.wf()
            &&& c.client_id == config.client_id
            &&& c.client_secret == config.client_secret
            &&& c.auth_url@ == GOOGLE_AUTH_URL@
            &&& c.token_url@ == GOOGLE_TOKEN_URL@
            &&& c.redirect_url@ == redirect_url_for(config.public_api_url@)
        },
{
    let auth_url = String::from_str(GOOGLE_AUTH_URL);
    let token_url = String::from_str(GOOGLE_TOKEN_URL);
    let mut redirect_url = config.public_api_url.clone();
    redirect_url.append("/google/redirect");
    if !parses_as_url(auth_url.as_str()) || !parses_as_url(token_url.as_str())
        || !parses_as_url(redirect_url.as_str()) {
        return Err(GoogleError::UrlParseError);
    }
    Ok(GoogleClient {
        client_id: config.client_id.clone(),
        client_secret: config.client_secret.clone(),
        auth_url,
        token_url,
        redirect_url,
    })
}

/// The scopes asked of Google: the email and the basic profile.
pub open spec fn google_scopes_view() -> Seq<Seq<char>> {
    seq![EMAIL_SCOPE@, PROFILE_SCOPE@]
}

pub fn google_scopes() -> (r: Vec<String>)
    ensures
        r@.map_values(|s: String| s@) == google_scopes_view(),
{
    let r = vec![String::from_str(EMAIL_SCOPE), String::from_str(PROFILE_SCOPE)];
    assert(r@.map_values(|s: String| s@) =~= google_scopes_view());
    r
}

/// The authorization URL for a given anti-forgery state.
pub fn authorize_url_with_state(client: &GoogleClient, state: &str) -> (r: String)
    requires
        client.wf(),
    ensures
        r@ == authorize_url_of(
            client.client_id@,
            client.auth_url@,
            client.redirect_url@,
            google_scopes_view(),
            state@,
        ),
{
    let scopes = google_scopes();
    oauth2_authorize_url(
        client.client_id.as_str(),
        client.auth_url.as_str(),
        client.redirect_url.as_str(),
        &scopes,
        state,
    )
}

/// The authorization URL with a fresh random state, and that state.
pub fn gen_authorize_url(client: &GoogleClient) -> (r: (String, String))
    requires
        client.wf(),
    ensures
        r.1@.len() == 22,
        r.0@ == authorize_url_of(
            client.client_id@,
            client.auth_url@,
            client.redirect_url@,
            google_scopes_view(),
            r.1@,
        ),
{
    let state = random_state();
    let url = authorize_url_with_state(client, state.as_str());
    (url, state)
}

/// The user-info endpoint, asked for JSON.
pub open spec fn profile_url_view() -> Seq<char> {
    GOOGLE_PEOPLE_ENDPOINT@ + "/oauth2/v1/userinfo?alt=json"@
}

pub fn profile_url() -> (r: String)
    ensures
        r@ == profile_url_view(),
{
    let mut r = String::from_str(GOOGLE_PEOPLE_ENDPOINT);
    r.append("/oauth2/v1/userinfo?alt=json");
    r
}

/// The `Authorization` header value that presents an access token.
pub fn bearer_header(access_token: &str) -> (r: String)
    ensures
        r@ == "Bearer "@ + access_token@,
{
    let mut r = String::from_str("Bearer ");
    r.append(access_token);
    r
}

/// The query Google's redirect carries back.
#[derive(Debug, Clone, PartialEq)]
pub struct GoogleRedirectExtractor {
    pub state: String,
    pub code: String,
    pub scope: Vec<String>,
    pub prompt: String,
    pub authuser: i32,
}

/// Something that carries an authorization code.
pub trait Code {
    spec fn code_view(&self) -> Seq<char>;

    fn code(&self) -> (r: String)
        ensures
            r@ == self.code_view(),
    ;
}

impl Code for GoogleRedirectExtractor {
    open spec fn code_view(&self) -> Seq<char> {
        self.code@
    }

    fn code(&self) -> (r: String) {
        self.code.clone()
    }
}

/// The profile Google reports for the signed-in account.
#[derive(Debug, Clone, PartialEq)]
pub struct GoogleProfile {
    pub id: String,
    pub email: String,
    pub family_name: Option<String>,
    pub gender: Option<String>,
    pub given_name: Option<String>,
    pub locale: Option<String>,
    pub picture: Option<String>,
    pub verified_email: bool,
}

impl Profile for GoogleProfile {
    open spec fn profile_email(&self) -> Seq<char> {
        self.email@
    }

    open spec fn profile_picture(&self) -> Option<Seq<char>> {
        opt_view(self.picture)
    }

    fn email(&self) -> (r: String) {
        self.email.clone()
    }

    fn picture(&self) -> (r: Option<String>) {
        match &self.picture {
            Some(p) => Some(p.clone()),
            None => None,
        }
    }

    fn new_user(&self) -> (r: Option<User>) {
        let picture = match &self.picture {
            Some(p) => Some(p.clone()),
            None => None,
        };
        User::new(self.email.clone(), picture)
    }
}

} // verus!
