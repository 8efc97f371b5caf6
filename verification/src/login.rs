//! The decisions of the login route.
use vstd::prelude::*;
use vstd::string::*;
use crate::jwt::{
    JWT, JwtSecret, TOKEN_LIFETIME_NANOS, claims_text, decode_outcome, hs256_encode, is_expired, expiry_for,
    DecodeErrorKind, clock_now, nanos_since_epoch,
};
use crate::password::{argon2_check, verify_password};
use crate::status::{STATUS_UNAUTHORIZED, STATUS_INTERNAL_SERVER_ERROR};
use crate::user::UserLoginView;

verus! {

/// A valid Argon2id hash of a random string. A login for an unknown address checks
/// the password against it, so that such a login takes as long as any other.
pub const DUMMY_HASH: &'static str = "$argon2id$v=19$m=19456,t=2,p=1$c29tZXJhbmRvbXNhbHQ$RoB4RWBSupGkPkOKA7HiYRmFjhSeop6UVKzSFbGMFG4";

/// The user id that stands for an unknown address.
pub const UNKNOWN_USER_ID: i32 = -1;

/// The database could not answer.
#[derive(Debug, Clone, Copy, PartialEq, Eq)]
pub struct DbError;

/// What a login checks the password against: the user's own id and hash when the
/// address is known, else `UNKNOWN_USER_ID` and `DUMMY_HASH` (also when the lookup failed).
pub fn login_view_or_dummy(lookup: Result<Option<UserLoginView>, DbError>) -> (r: UserLoginView)
    ensures
        lookup matches Ok(Some(v)) ==> r == v,
        !(lookup matches Ok(Some(_))) ==> r.id == UNKNOWN_USER_ID && r.password_hash@ == DUMMY_HASH@,
{
    match lookup {
        Ok(Some(v)) => v,
        _ => UserLoginView { id: UNKNOWN_USER_ID, password_hash: DUMMY_HASH.to_owned() },
    }
}

/// The expiry of a token made by a login at `now` nanoseconds: `TOKEN_LIFETIME_NANOS` later.
pub open spec fn login_expiry(now: u128) -> int {
    expiry_for(now, TOKEN_LIFETIME_NANOS)
}

/// The token reads, under `secret`, as the claims `(exp, user_id)` up to the expiry and as expired after it.
pub open spec fn token_valid_until(token: Seq<char>, secret: Seq<u8>, exp: u64, user_id: i32) -> bool {
    forall|later: u128| #[trigger] decode_outcome(token, secret, later) == if is_expired(later, exp) {
        Err::<(u64, i32), Option<DecodeErrorKind>>(Some(DecodeErrorKind::Expired))
    } else {
        Ok::<(u64, i32), Option<DecodeErrorKind>>((exp, user_id))
    }
}

/// What a login at `now` (nanoseconds since the Unix epoch) gives for the user `id`
/// with the stored hash: 401 "Invalid credentials" unless the password checks
/// against the hash; else the token of `id` that expires `TOKEN_LIFETIME_NANOS`
/// later, signed with `secret` (401 "Invalid credentials" when it cannot be made).
pub open spec fn login_outcome(hash: Seq<char>, id: i32, password: Seq<u8>, secret: Seq<u8>, now: u128) -> Result<Seq<char>, (u16, &'static str)> {
    if argon2_check(password, hash) != Some(true) {
        Err((401u16, "Invalid credentials"))
    } else if login_expiry(now) > u64::MAX {
        Err((401u16, "Invalid credentials"))
    } else {
        match hs256_encode(claims_text(login_expiry(now) as u64, id), secret) {
            Some(t) => Ok(t),
            None => Err((401u16, "Invalid credentials")),
        }
    }
}

/// Checks the password against the view and, when it matches, makes the token of
/// the user at time `now` (nanoseconds since the Unix epoch); refusals give 401.
pub fn login_token_at(view: &UserLoginView, password: &str, secret: &JwtSecret, now: u128) -> (r: Result<String, (u16, &'static str)>)
    ensures
        match login_outcome(view.password_hash@, view.id, password.spec_bytes(), secret@, now) {
            Ok(t) => r matches Ok(s) && s@ == t,
            Err(e) => r == Err::<String, (u16, &'static str)>(e),
        },
        r matches Ok(t) ==> token_valid_until(t@, secret@, login_expiry(now) as u64, view.id),
        argon2_check(password.spec_bytes(), view.password_hash@) == Some(true) && login_expiry(now) <= u64::MAX ==> r is Ok,
{
    if !verify_password(password, view.password_hash.as_str()) {
        return Err((STATUS_UNAUTHORIZED, "Invalid credentials"));
    }
    match JWT::create_at(view.id, TOKEN_LIFETIME_NANOS, now, secret) {
        Ok(token) => Ok(token),
        Err(_) => Err((STATUS_UNAUTHORIZED, "Invalid credentials")),
    }
}

/// What a login gives with the clock's reading `clock` (nanoseconds since the Unix
/// epoch; `None` when the clock stands before it): as `login_outcome` at that time;
/// without a reading, 401 "Invalid credentials" when the password does not check and
/// 500 "Internal server error" when it does.
pub open spec fn login_clock_outcome(hash: Seq<char>, id: i32, password: Seq<u8>, secret: Seq<u8>, clock: Option<u128>) -> Result<Seq<char>, (u16, &'static str)> {
    match clock {
        Some(now) => login_outcome(hash, id, password, secret, now),
        None => if argon2_check(password, hash) != Some(true) {
            Err((401u16, "Invalid credentials"))
        } else {
            Err((500u16, "Internal server error"))
        },
    }
}

/// `r` is the login answer for the view with the clock's reading `clock`, and a
/// token it gives reads as the user's claims up to its expiry.
pub open spec fn login_answered(r: Result<String, (u16, &'static str)>, view: UserLoginView, password: Seq<u8>, secret: Seq<u8>, clock: Option<u128>) -> bool {
    &&& match login_clock_outcome(view.password_hash@, view.id, password, secret, clock) {
        Ok(t) => r matches Ok(s) && s@ == t,
        Err(e) => r == Err::<String, (u16, &'static str)>(e),
    }
    &&& r matches Ok(t) ==> clock matches Some(now) && token_valid_until(t@, secret, login_expiry(now) as u64, view.id)
}

/// Checks the password against the view and makes the user's token with the
/// clock's reading `clock`; without a reading the password is still checked once.
pub fn login_token_with_clock(view: &UserLoginView, password: &str, secret: &JwtSecret, clock: Option<u128>) -> (r: Result<String, (u16, &'static str)>)
    ensures
        login_answered(r, *view, password.spec_bytes(), secret@, clock),
        clock is Some && argon2_check(password.spec_bytes(), view.password_hash@) == Some(true)
            && login_expiry(clock->Some_0) <= u64::MAX ==> r is Ok,
{
    match clock {
        Some(now) => login_token_at(view, password, secret, now),
        None => {
            if !verify_password(password, view.password_hash.as_str()) {
                Err((STATUS_UNAUTHORIZED, "Invalid credentials"))
            } else {
                Err((STATUS_INTERNAL_SERVER_ERROR, "Internal server error"))
            }
        },
    }
}

/// Checks the password against the view and, when it matches, makes a token for
/// the user that expires `TOKEN_LIFETIME_NANOS` after the time read from the
/// clock: what `login_token_with_clock` gives for the clock's reading.
pub fn login_token(view: &UserLoginView, password: &str, secret: &JwtSecret) -> (r: Result<String, (u16, &'static str)>)
    ensures
        exists|clock: Option<u128>| #[trigger] login_answered(r, *view, password.spec_bytes(), secret@, clock),
        argon2_check(password.spec_bytes(), view.password_hash@) != Some(true) ==>
            r == Err::<String, (u16, &'static str)>((401u16, "Invalid credentials")),
        r matches Err(e) ==> e == (401u16, "Invalid credentials")
            || (e == (500u16, "Internal server error") && argon2_check(password.spec_bytes(), view.password_hash@) == Some(true)),
        r matches Ok(t) ==> exists|now: u128| {
            &&& #[trigger] login_outcome(view.password_hash@, view.id, password.spec_bytes(), secret@, now) == Ok::<Seq<char>, (u16, &'static str)>(t@)
            &&& token_valid_until(t@, secret@, login_expiry(now) as u64, view.id)
        },
        r matches Err(e) ==> (e.0 == 401 && argon2_check(password.spec_bytes(), view.password_hash@) == Some(true) ==>
            exists|now: u128| #[trigger] login_expiry(now) > u64::MAX),
{
    let time = clock_now();
    let clock: Option<u128> = nanos_since_epoch(&time);
    let r = login_token_with_clock(view, password, secret, clock);
    proof {
        if clock is Some {
            let now = clock->Some_0;
            if r is Ok {
                assert(login_outcome(view.password_hash@, view.id, password.spec_bytes(), secret@, now) == Ok::<Seq<char>, (u16, &'static str)>(r->Ok_0@));
            }
            if r is Err && r->Err_0.0 == 401 && argon2_check(password.spec_bytes(), view.password_hash@) == Some(true) {
                assert(login_expiry(now) > u64::MAX);
            }
        }
    }
    r
}

/// A login at the clock reading `now` (nanoseconds) issues, when the password checks,
/// the token of the user whose expiry is ten minutes after the reading, in whole
/// milliseconds: `now / 1_000_000 + 600_000`. With a reading, `login_token_with_clock`
/// answers exactly that token, which reads as the user's claims until then and as
/// expired at every later reading.
pub proof fn law_login_token_expires_ten_minutes_after_reading(
    r: Result<String, (u16, &'static str)>, view: UserLoginView, password: Seq<u8>, secret: Seq<u8>, now: u128,
)
    requires
        login_answered(r, view, password, secret, Some(now)),
    ensures
        login_expiry(now) == now as int / 1_000_000 + 600_000,
        r matches Ok(t) ==> {
            &&& argon2_check(password, view.password_hash@) == Some(true)
            &&& now as int / 1_000_000 + 600_000 <= u64::MAX
            &&& hs256_encode(claims_text((now as int / 1_000_000 + 600_000) as u64, view.id), secret) == Some(t@)
            &&& forall|later: u128| #[trigger] decode_outcome(t@, secret, later) == if later as int > (now as int / 1_000_000 + 600_000) * 1_000_000 {
                Err::<(u64, i32), Option<DecodeErrorKind>>(Some(DecodeErrorKind::Expired))
            } else {
                Ok::<(u64, i32), Option<DecodeErrorKind>>(((now as int / 1_000_000 + 600_000) as u64, view.id))
            }
        },
{
    assert(login_expiry(now) == now as int / 1_000_000 + 600_000) by (nonlinear_arith)
        requires login_expiry(now) == (now as int + 600000000000int) / 1000000int;
}

/// A login for an unknown address and a login whose password does not check get
/// the same answer, 401 "Invalid credentials", whatever the user, secret and time:
/// the answer tells neither apart. (For an unknown address the password is checked
/// against `DUMMY_HASH`, see `login_view_or_dummy`.)
pub proof fn law_login_refusal_same_answer(
    hash1: Seq<char>, id1: i32, hash2: Seq<char>, id2: i32, password: Seq<u8>, secret: Seq<u8>, now1: u128, now2: u128,
)
    requires
        argon2_check(password, hash1) != Some(true),
        argon2_check(password, hash2) != Some(true),
    ensures
        login_outcome(hash1, id1, password, secret, now1) == login_outcome(hash2, id2, password, secret, now2),
        login_outcome(hash1, id1, password, secret, now1) == Err::<Seq<char>, (u16, &'static str)>((401u16, "Invalid credentials")),
{
}

} // verus!
