use backend::email::{signup_follow_up, signup_mail_response, SendDecision, SignupFollowUp};
use backend::jwt::{JwtSecret, DecodeError, JWT, TOKEN_LIFETIME_NANOS, NANOS_PER_MILLI};
use backend::login::{login_token_at, login_token_with_clock, login_view_or_dummy, DbError};
use backend::jwt::{Auth, AuthError};
use backend::password::{hash_password, verify_password};
use backend::repository::{RevertSignup, SqlValue, REVERT_SIGNUP};
use backend::signup::{email_taken_response, prepare_user, prepare_user_with_hash};
use backend::user::UserLoginView;

fn secret() -> JwtSecret {
    JwtSecret::new(b"an-hmac-secret-of-at-least-32-bytes!".to_vec()).unwrap()
}

#[test]
fn row_from_hash_checks_each_column() {
    let long: String = "x".repeat(161);
    let fits: String = "h".repeat(160);
    assert_eq!(prepare_user_with_hash(&long, "a@b.c", Some("h".into())).err(), Some((500, "Internal server error")));
    assert_eq!(prepare_user_with_hash("Ann", &long, Some("h".into())).err(), Some((500, "Internal server error")));
    assert_eq!(prepare_user_with_hash("Ann", "a@b.c", None).err(), Some((500, "Failed to hash password")));
    assert_eq!(prepare_user_with_hash("Ann", "a@b.c", Some(long.clone())).err(), Some((500, "Internal server error")));
    let row = prepare_user_with_hash("Ann", "a@b.c", Some(fits.clone())).unwrap();
    assert_eq!(row.name.as_str(), "Ann");
    assert_eq!(row.email.as_str(), "a@b.c");
    assert_eq!(row.hashed_pw.as_str(), fits);
}

#[test]
fn hashes_are_argon2id_phc_strings() {
    let h = hash_password("password123").unwrap();
    assert!(h.starts_with("$argon2id$v=19$m=19456,t=2,p=1$"));
    assert_ne!(h, "password123");
    assert!(verify_password("password123", &h));
    let row = prepare_user("Test User", "newuser@example.com", "password123").unwrap();
    assert!(row.hashed_pw.as_str().starts_with("$argon2id$v=19$m=19456,t=2,p=1$"));
    assert!(verify_password("password123", row.hashed_pw.as_str()));
}

#[test]
fn taken_address_is_a_conflict() {
    assert_eq!(email_taken_response(Ok(true)), Err((409, "Email already in use")));
    assert_eq!(email_taken_response(Ok(false)), Ok(()));
    assert_eq!(email_taken_response(Err(DbError)), Err((500, "Internal server error")));
}

#[test]
fn login_token_expires_ten_minutes_after_login() {
    let s = secret();
    let row = prepare_user("Login Test", "logintest@example.com", "password123").unwrap();
    let view = UserLoginView { id: 21, password_hash: row.hashed_pw.as_str().to_string() };
    let now: u128 = 1_700_000_000_000 * NANOS_PER_MILLI;
    let token = login_token_at(&view, "password123", &s, now).unwrap();
    let claims = JWT::decode_at(&token, &s, now).unwrap();
    assert_eq!(claims, JWT { exp: 1_700_000_000_000 + 600_000, user_id: 21 });
    assert_eq!(TOKEN_LIFETIME_NANOS / NANOS_PER_MILLI, 600_000);
    let later = (1_700_000_000_000 + 600_000 + 1) * NANOS_PER_MILLI;
    assert!(matches!(JWT::decode_at(&token, &s, later), Err(DecodeError::Expired)));
    assert_eq!(login_token_at(&view, "wrongpassword", &s, now), Err((401, "Invalid credentials")));
    let dummy = login_view_or_dummy(Ok(None));
    assert_eq!(login_token_at(&dummy, "password123", &s, now), Err((401, "Invalid credentials")));
}

#[test]
fn failed_mail_reverts_the_signup() {
    assert_eq!(signup_follow_up(SendDecision::Accepted), SignupFollowUp::Keep);
    assert_eq!(signup_mail_response(SendDecision::Accepted), Ok(()));
    for d in [SendDecision::Refused, SendDecision::Failed] {
        assert_eq!(signup_follow_up(d), SignupFollowUp::Revert);
        assert_eq!(signup_mail_response(d), Err((500, "Failed to send confirmation email")));
    }
    assert_eq!(RevertSignup::new("a@b.c").params(), vec![SqlValue::Text("a@b.c".into())]);
    assert_eq!(REVERT_SIGNUP.chars().filter(|c| *c == '?').count(), 1);
}

#[test]
fn bad_token_is_refused_before_the_clock() {
    let s = secret();
    assert!(matches!(JWT::decode("not.a.valid.jwt", &s), Err(DecodeError::JWTError(_))));
}

#[test]
fn lifetimes_below_a_millisecond_count() {
    let s = secret();
    let now: u128 = 1_700_000_000_000 * NANOS_PER_MILLI + 999_950;
    let token = JWT::create_at(4, 100_000, now, &s).unwrap();
    assert_eq!(JWT::decode_at(&token, &s, now).unwrap(), JWT { exp: 1_700_000_000_001, user_id: 4 });
    assert!(JWT::create_at(4, u128::MAX, now, &s).is_err());
}

#[test]
fn salts_and_hashes_have_their_fixed_shape() {
    let h = hash_password("password123").unwrap();
    assert_eq!(h.len(), 97);
    let salt = &h[31..53];
    assert!(salt.chars().all(|c| c.is_ascii_alphanumeric() || c == '+' || c == '/'));
    assert!(matches!(salt.chars().last(), Some('A' | 'Q' | 'g' | 'w')));
    assert_eq!(&h[53..54], "$");
}

#[test]
fn clock_reading_decides_expiry() {
    let s = secret();
    let now: u128 = 1_700_000_000_000 * NANOS_PER_MILLI;
    let token = JWT::create_at(8, TOKEN_LIFETIME_NANOS, now, &s).unwrap();
    assert_eq!(JWT::decode_with_clock(&token, &s, Some(now)).unwrap().user_id, 8);
    let after = now + TOKEN_LIFETIME_NANOS + 1;
    assert!(matches!(JWT::decode_with_clock(&token, &s, Some(after)), Err(DecodeError::Expired)));
    assert!(matches!(JWT::decode_with_clock(&token, &s, None), Err(DecodeError::Clock)));
    assert!(matches!(JWT::decode_with_clock("not.a.valid.jwt", &s, None), Err(DecodeError::JWTError(_))));
    assert_eq!(Auth::from_cookie_with_clock(Some(&token), &s, Some(now)).unwrap().0.user_id, 8);
    assert!(matches!(Auth::from_cookie_with_clock(Some(&token), &s, Some(after)), Err((401, AuthError::Expired))));
    assert!(matches!(Auth::from_cookie_with_clock(Some(&token), &s, None), Err((500, AuthError::Clock))));
    assert!(matches!(Auth::from_cookie_with_clock(None, &s, Some(now)), Err((401, AuthError::NoJWT))));
}

#[test]
fn login_without_a_clock_reading() {
    let s = secret();
    let row = prepare_user("Clock Test", "clock@example.com", "password123").unwrap();
    let view = UserLoginView { id: 5, password_hash: row.hashed_pw.as_str().to_string() };
    assert_eq!(login_token_with_clock(&view, "password123", &s, None), Err((500, "Internal server error")));
    assert_eq!(login_token_with_clock(&view, "wrongpassword", &s, None), Err((401, "Invalid credentials")));
    let now: u128 = 1_700_000_000_000 * NANOS_PER_MILLI;
    assert!(login_token_with_clock(&view, "password123", &s, Some(now)).is_ok());
}
