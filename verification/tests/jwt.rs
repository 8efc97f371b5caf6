use std::time::{Duration, Instant};

fn sleep(d: Duration) {
    let start = Instant::now();
    while start.elapsed() < d {}
}

use backend::jwt::{Auth, AuthError, DecodeError, JwtSecret, JWT, TOKEN_LIFETIME_NANOS};
use backend::claims::{read_claims, write_claims};

fn secret() -> JwtSecret {
    JwtSecret::new(b"0123456789abcdef0123456789abcdef".to_vec()).unwrap()
}

#[test]
fn create_jwt() {
    let secret = secret();
    let jwt: String = JWT::create(0, TOKEN_LIFETIME_NANOS, &secret).unwrap();
    let JWT { user_id, .. } = JWT::decode(&jwt, &secret).unwrap();
    assert_eq!(user_id, 0);
}

#[test]
fn expired_jwt() {
    let secret = secret();
    let jwt: String = JWT::create(0, Duration::from_micros(100).as_nanos(), &secret).unwrap();
    sleep(Duration::from_millis(1));
    assert!(JWT::decode(&jwt, &secret).is_err())
}

#[test]
fn token_lifetime_is_ten_minutes() {
    assert_eq!(TOKEN_LIFETIME_NANOS, Duration::from_secs(10 * 60).as_nanos());
}

#[test]
fn short_secret_refused() {
    assert!(JwtSecret::new(vec![1u8; 31]).is_none());
    assert!(JwtSecret::new(vec![1u8; 32]).is_some());
}

#[test]
fn token_at_time_roundtrip_and_expiry() {
    let secret = secret();
    let now: u128 = 1_700_000_000_000_000_000;
    let token = JWT::create_at(-5, 1_000_000_000, now, &secret).unwrap();
    let jwt = JWT::decode_at(&token, &secret, now).unwrap();
    assert_eq!(jwt, JWT { exp: 1_700_000_001_000, user_id: -5 });
    assert!(JWT::decode_at(&token, &secret, 1_700_000_001_000_000_000).is_ok());
    assert!(matches!(JWT::decode_at(&token, &secret, 1_700_000_001_000_000_001), Err(DecodeError::Expired)));
}

#[test]
fn token_with_other_secret_refused() {
    let token = JWT::create(7, TOKEN_LIFETIME_NANOS, &secret()).unwrap();
    let other = JwtSecret::new(b"another secret of thirty-two b!!".to_vec()).unwrap();
    assert!(matches!(JWT::decode(&token, &other), Err(DecodeError::JWTError(_))));
}

#[test]
fn auth_from_cookie() {
    let secret = secret();
    assert!(matches!(Auth::from_cookie(None, &secret), Err((401, AuthError::NoJWT))));
    assert!(matches!(Auth::from_cookie(Some("not.a.valid.jwt"), &secret), Err((400, AuthError::JWTError(_)))));
    let token = JWT::create(3, TOKEN_LIFETIME_NANOS, &secret).unwrap();
    let auth = Auth::from_cookie(Some(&token), &secret).unwrap();
    assert_eq!(auth.get_jwt().user_id, 3);
    let expired = JWT::create(3, 0, &secret).unwrap();
    sleep(Duration::from_millis(2));
    assert!(matches!(Auth::from_cookie(Some(&expired), &secret), Err((401, AuthError::Expired))));
}

#[test]
fn claims_text_roundtrip() {
    let bytes = write_claims(1725029869000, -2147483648);
    assert_eq!(String::from_utf8(bytes.clone()).unwrap(), r#"{"exp":1725029869000,"user_id":-2147483648}"#);
    assert_eq!(read_claims(&bytes), Some((1725029869000, i32::MIN)));
    assert_eq!(read_claims(br#"{"exp":0,"user_id":0}"#), Some((0, 0)));
    assert_eq!(read_claims(br#"{"exp":18446744073709551615,"user_id":2147483647}"#), Some((u64::MAX, i32::MAX)));
    assert_eq!(read_claims(br#"{"exp":007,"user_id":1}"#), None);
    assert_eq!(read_claims(br#"{"exp":1,"user_id":-0}"#), None);
    assert_eq!(read_claims(br#"{"exp":1, "user_id":1}"#), None);
    assert_eq!(read_claims(br#"{"exp":18446744073709551616,"user_id":1}"#), None);
    assert_eq!(read_claims(br#"{"exp":1,"user_id":2147483648}"#), None);
}
