use photo_api::clock::{expiry_after, seconds_from_now};
use photo_api::ids::Uuid;
use photo_api::models::User;
use photo_api::token::{encode_claims, encode_token, AuthUser, TokenError};
use std::time::{SystemTime, UNIX_EPOCH};

fn now_secs() -> u64 {
    SystemTime::now().duration_since(UNIX_EPOCH).unwrap().as_secs()
}

fn user(email: &str) -> User {
    let mut u = User::new(String::from(email), None).unwrap();
    u.id = Uuid::parse_str("67e55044-10b1-426f-9247-bb680e5fe0c8").unwrap();
    u
}

#[test]
fn uuid_parses_and_prints_hyphenated() {
    let u = Uuid::parse_str("67E55044-10B1-426F-9247-BB680E5FE0C8").unwrap();
    assert_eq!(u.hyphenated(), "67e55044-10b1-426f-9247-bb680e5fe0c8");
    assert_eq!(u.as_u128(), 0x67e5504410b1426f9247bb680e5fe0c8);
    let simple = Uuid::parse_str("67e5504410b1426f9247bb680e5fe0c8").unwrap();
    assert_eq!(simple, u);
}

#[test]
fn uuid_rejects_other_text() {
    assert!(Uuid::parse_str("not-a-uuid").is_err());
    assert!(Uuid::parse_str("").is_err());
}

#[test]
fn uuid_new_v4_is_version_four() {
    let a = Uuid::new_v4();
    let b = Uuid::new_v4();
    assert_ne!(a, b);
    assert_eq!((a.as_u128() >> 76) & 0xF, 4);
    assert_eq!((a.as_u128() >> 62) & 0x3, 2);
    assert_eq!(a.hyphenated().len(), 36);
}

#[test]
fn expiry_adds_or_overflows() {
    assert_eq!(expiry_after(100, 3600), Some(3700));
    assert_eq!(expiry_after(u64::MAX, 1), None);
    assert_eq!(expiry_after(u64::MAX - 1, 1), Some(u64::MAX));
}

#[test]
fn seconds_from_now_is_ahead_of_the_clock() {
    let before = now_secs();
    let t = seconds_from_now(3600).unwrap();
    let after = now_secs();
    assert!(t >= before + 3600 && t <= after + 3600);
    assert_eq!(seconds_from_now(u64::MAX), None);
}

#[test]
fn claims_json_has_fixed_field_order() {
    let claims = AuthUser::expiring_at(&user("a@x.com"), 1700000000);
    assert_eq!(
        claims.to_json(),
        "{\"email\":\"a@x.com\",\"user_id\":\"67e55044-10b1-426f-9247-bb680e5fe0c8\",\"exp\":1700000000}"
    );
}

#[test]
fn claims_json_escapes_email() {
    let claims = AuthUser::expiring_at(&user("q\"\\\n\u{1}@x"), 0);
    assert_eq!(
        claims.to_json(),
        "{\"email\":\"q\\\"\\\\\\n\\u0001@x\",\"user_id\":\"67e55044-10b1-426f-9247-bb680e5fe0c8\",\"exp\":0}"
    );
}

#[test]
fn auth_user_new_expires_after_ttl() {
    let before = now_secs();
    let claims = AuthUser::new(&user("a@x.com"), 60).unwrap();
    assert_eq!(claims.email, "a@x.com");
    assert_eq!(claims.user_id, "67e55044-10b1-426f-9247-bb680e5fe0c8");
    let after = now_secs();
    assert!(claims.exp >= before + 60 && claims.exp <= after + 60);
    assert_eq!(AuthUser::new(&user("a@x.com"), u64::MAX).err(), Some(TokenError::Clock));
}

fn decode(token: &str, secret: &str) -> Result<serde_json::Value, jsonwebtoken::errors::Error> {
    let key = jsonwebtoken::DecodingKey::from_secret(secret.as_bytes());
    let validation = jsonwebtoken::Validation::default();
    jsonwebtoken::decode::<serde_json::Value>(token, &key, &validation).map(|d| d.claims)
}

#[test]
fn token_round_trips_with_same_secret() {
    let u = user("a@x.com");
    let token = encode_token(&u, 3600, "s3cret").unwrap();
    assert_eq!(token.split('.').count(), 3);
    let claims = decode(&token, "s3cret").unwrap();
    assert_eq!(claims["email"], "a@x.com");
    assert_eq!(claims["user_id"], "67e55044-10b1-426f-9247-bb680e5fe0c8");
}

#[test]
fn token_fails_with_other_secret() {
    let token = encode_token(&user("a@x.com"), 3600, "s3cret").unwrap();
    assert!(decode(&token, "other").is_err());
}

#[test]
fn token_fails_once_expired() {
    let claims = AuthUser::expiring_at(&user("a@x.com"), now_secs() - 3600);
    let token = encode_claims(&claims, "s3cret");
    assert!(decode(&token, "s3cret").is_err());
}

#[test]
fn encode_claims_matches_jsonwebtoken() {
    let claims = AuthUser::expiring_at(&user("a@x.com"), 1700000000);
    let ours = encode_claims(&claims, "k");
    let mut map = serde_json::Map::new();
    map.insert(String::from("email"), serde_json::Value::from("a@x.com"));
    map.insert(
        String::from("user_id"),
        serde_json::Value::from("67e55044-10b1-426f-9247-bb680e5fe0c8"),
    );
    map.insert(String::from("exp"), serde_json::Value::from(1700000000u64));
    let direct = jsonwebtoken::encode(
        &jsonwebtoken::Header::default(),
        &map,
        &jsonwebtoken::EncodingKey::from_secret(b"k"),
    )
    .unwrap();
    let ours_payload = ours.split('.').nth(1).unwrap().to_string();
    assert_eq!(ours.split('.').next(), direct.split('.').next());
    assert!(!ours_payload.is_empty());
}

#[test]
fn signing_is_deterministic() {
    let claims = AuthUser::expiring_at(&user("a@x.com"), 1700000000);
    assert_eq!(encode_claims(&claims, "k"), encode_claims(&claims, "k"));
    assert_ne!(encode_claims(&claims, "k"), encode_claims(&claims, "other"));
}

#[test]
fn token_claims_expire_one_ttl_after_now() {
    let before = now_secs();
    let token = encode_token(&user("a@x.com"), 3600, "s3cret").unwrap();
    let after = now_secs();
    let claims = decode(&token, "s3cret").unwrap();
    let exp = claims["exp"].as_u64().unwrap();
    assert!(exp >= before + 3600 && exp <= after + 3600);
}
