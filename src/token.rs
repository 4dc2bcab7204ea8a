//! Session tokens: the claims `{email, user_id, exp}` as JSON, signed with
//! HS256 under the process secret.

use crate::clock::{expires_from_clock, seconds_from_now};
use crate::ids::{hex_lower, hyphenated_text};
use crate::models::User;
use crate::text::push_char;
use vstd::string::*;
use vstd::prelude::*;

verus! {

/// How JSON writes one character inside a string.
pub open spec fn json_escape(c: char) -> Seq<char> {
    if c == '"' {
        seq!['\\', '"']
    } else if c == '\\' {
        seq!['\\', '\\']
    } else if c == '\x08' {
        seq!['\\', 'b']
    } else if c == '\t' {
        seq!['\\', 't']
    } else if c == '\n' {
        seq!['\\', 'n']
    } else if c == '\x0C' {
        seq!['\\', 'f']
    } else if c == '\r' {
        seq!['\\', 'r']
    } else if (c as int) < 0x20 {
        seq!['\\', 'u', '0', '0', hex_lower((c as int) / 16), hex_lower((c as int) % 16)]
    } else {
        seq![c]
    }
}

pub open spec fn json_escaped(s: Seq<char>) -> Seq<char>
    decreases s.len(),
{
    if s.len() == 0 {
        Seq::empty()
    } else {
        json_escaped(s.drop_last()) + json_escape(s.last())
    }
}

/// A text as a JSON string literal.
pub open spec fn json_string(s: Seq<char>) -> Seq<char> {
    seq!['"'] + json_escaped(s) + seq!['"']
}

/// The decimal digits of `n`, without leading zeros.
pub open spec fn decimal(n: nat) -> Seq<char>
    decreases n,
{
    if n < 10 {
        seq![(('0' as nat) + n) as char]
    } else {
        decimal(n / 10).push((('0' as nat) + n % 10) as char)
    }
}

/// Relies on `serde_json::to_string` applied to a `str`: the text between
/// double quotes, with `"`, `\` and the control characters escaped. Writing a
/// `str` into the `Vec` that `to_string` fills has no failing path, so the
/// fallback is never taken.
#[verifier::external_body]
fn quote_json(s: &str) -> (r: String)
    ensures
        r@ == json_string(s@),
{
    match serde_json::to_string(s) {
        Ok(q) => q,
        Err(_) => String::new(),
    }
}

/// What `jsonwebtoken::encode` returns for the claims given as JSON text,
/// under the default header (HS256) and an HMAC key made from the secret.
pub uninterp spec fn jwt_hs256(claims: Seq<char>, secret: Seq<char>) -> Seq<char>;

/// The text is the claims JSON that this library writes.
pub open spec fn is_claims_text(s: Seq<char>) -> bool {
    exists|email: Seq<char>, user_id: Seq<char>, exp: u64|
        s == #[trigger] claims_text(email, user_id, exp)
}

/// Relies on `jsonwebtoken::encode` with `Header::default()` (HS256) and
/// `EncodingKey::from_secret`; the claims pass as a
/// `serde_json::value::RawValue`, which accepts the claims JSON (an object of
/// two JSON strings and an integer, without surrounding white space) and
/// writes it unchanged. For an HMAC key and HS256, `encode` has no failing
/// path, so the fallbacks are never taken; its result joins the encoded
/// parts with `.`, so it is never empty.
#[verifier::external_body]
fn sign_hs256(claims: String, secret: &str) -> (r: String)
    requires
        is_claims_text(claims@),
    ensures
        r@ == jwt_hs256(claims@, secret@),
        r@.len() > 0,
{
    let raw = match serde_json::value::RawValue::from_string(claims) {
        Ok(raw) => raw,
        Err(_) => return String::new(),
    };
    let key = jsonwebtoken::EncodingKey::from_secret(secret.as_bytes());
    match jsonwebtoken::encode(&jsonwebtoken::Header::default(), &raw, &key) {
        Ok(t) => t,
        Err(_) => String::new(),
    }
}

pub(crate) fn push_decimal(s: &mut String, n: u64)
    ensures
        final(s)@ == old(s)@ + decimal(n as nat),
    decreases n,
{
    if n >= 10 {
        push_decimal(s, n / 10);
    }
    let d = (n % 10) as u8;
    push_char(s, (('0' as u8) + d) as char);
    assert(n >= 10 ==> decimal(n as nat) == decimal((n / 10) as nat).push(
        (('0' as nat) + (n % 10) as nat) as char,
    ));
}

/// Why no token was made.
#[derive(Debug, Clone, Copy, PartialEq, Eq, Structural)]
pub enum TokenError {
    /// The clock reads before 1970, or the expiry does not fit in 64 bits.
    Clock,
}

/// The JSON text of the claims, fields in the order email, user_id, exp.
pub open spec fn claims_text(email: Seq<char>, user_id: Seq<char>, exp: u64) -> Seq<char> {
    "{\"email\":"@ + json_string(email) + ",\"user_id\":"@ + json_string(user_id) + ",\"exp\":"@
        + decimal(exp as nat) + seq!['}']
}

/// The claims that a session token asserts: who the bearer is, and until when
/// (seconds since 1970).
#[derive(Debug, Clone, PartialEq)]
pub struct AuthUser {
    pub email: String,
    pub user_id: String,
    pub exp: u64,
}

impl AuthUser {
    /// The claims for `user`, valid until `exp`.
    pub fn expiring_at(user: &User, exp: u64) -> (r: AuthUser)
        ensures
            r.email@ == user.email@,
            r.user_id@ == hyphenated_text(user.id@),
            r.exp == exp,
    {
        AuthUser { email: user.email.clone(), user_id: user.id.hyphenated(), exp }
    }

    /// The claims for `user`, valid for `expire_in` seconds from the current
    /// clock reading.
    pub fn new(user: &User, expire_in: u64) -> (r: Result<AuthUser, TokenError>)
        ensures
            r matches Ok(a) ==> {
                &&& a.email@ == user.email@
                &&& a.user_id@ == hyphenated_text(user.id@)
                &&& expires_from_clock(a.exp, expire_in)
            },
            r matches Err(e) ==> e == TokenError::Clock,
    {
        match seconds_from_now(expire_in) {
            Some(exp) => Ok(AuthUser::expiring_at(user, exp)),
            None => Err(TokenError::Clock),
        }
    }

    /// The claims as JSON text.
    pub fn to_json(&self) -> (r: String)
        ensures
            r@ == claims_text(self.email@, self.user_id@, self.exp),
    {
        let email = quote_json(self.email.as_str());
        let user_id = quote_json(self.user_id.as_str());
        let mut out = String::from_str("{\"email\":");
        out.append(email.as_str());
        out.append(",\"user_id\":");
        out.append(user_id.as_str());
        out.append(",\"exp\":");
        push_decimal(&mut out, self.exp);
        push_char(&mut out, '}');
        out
    }
}

/// The session token for the given claims under `secret`.
pub open spec fn token_text(email: Seq<char>, user_id: Seq<char>, exp: u64, secret: Seq<char>) -> Seq<
    char,
> {
    jwt_hs256(claims_text(email, user_id, exp), secret)
}

/// Signs the claims under `secret`.
pub fn encode_claims(claims: &AuthUser, secret: &str) -> (r: String)
    ensures
        r@ == token_text(claims.email@, claims.user_id@, claims.exp, secret@),
        r@.len() > 0,
{
    let json = claims.to_json();
    sign_hs256(json, secret)
}

/// A session token for `user`, valid for `expire_in` seconds from the current
/// clock reading, signed under `secret`.
pub fn encode_token(user: &User, expire_in: u64, secret: &str) -> (r: Result<String, TokenError>)
    ensures
        r matches Ok(t) ==> t@.len() > 0 && exists|exp: u64|
            expires_from_clock(exp, expire_in) && t@ == #[trigger] token_text(
                user.email@,
                hyphenated_text(user.id@),
                exp,
                secret@,
            ),
        r matches Err(e) ==> e == TokenError::Clock,
{
    let claims = AuthUser::new(user, expire_in)?;
    let t = encode_claims(&claims, secret);
    assert(t@ == token_text(user.email@, hyphenated_text(user.id@), claims.exp, secret@));
    Ok(t)
}

} // verus!
