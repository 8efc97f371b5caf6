//! JWT authentication. Tokens are signed with HMAC-SHA256 (`HS256`); the
//! algorithm is fixed when a token is read and never taken from its header.
//! `exp` holds the expiry in milliseconds since the Unix epoch, not the seconds
//! of RFC 7519, so the expiry is checked here and not by `jsonwebtoken`.
use vstd::prelude::*;
use vstd::utf8::*;
use vstd::string::*;
use crate::claims::{claims_bytes, read_claims, write_claims, lemma_claims_injective};
use crate::status::{STATUS_BAD_REQUEST, STATUS_UNAUTHORIZED, STATUS_INTERNAL_SERVER_ERROR};
use crate::text::{all_ascii, ascii_chars, ascii_to_string, lemma_ascii_text};

verus! {

/// Bytes that the signing secret needs at least: 256 bits for HMAC-SHA256.
pub const JWT_SECRET_MIN_BYTES: usize = 32;

/// How long a token stays valid: ten minutes, in nanoseconds.
pub const TOKEN_LIFETIME_NANOS: u128 = 600000000000;

/// Nanoseconds in a millisecond.
pub const NANOS_PER_MILLI: u128 = 1000000;

#[verifier::external_type_specification]
#[verifier::external_body]
pub struct ExJwtError(jsonwebtoken::errors::Error);

#[verifier::external_type_specification]
#[verifier::external_body]
pub struct ExSystemTime(std::time::SystemTime);

/// The token that `jsonwebtoken::encode` makes of a header for `HS256`, the given
/// claims text and an HMAC key of the given bytes; `None` when it fails.
pub uninterp spec fn hs256_encode(claims: Seq<char>, secret: Seq<u8>) -> Option<Seq<char>>;

/// The claims text that `jsonwebtoken::decode` reads from a token with an HMAC key
/// of the given bytes, the algorithm fixed to `HS256` and no check of `exp`;
/// `None` when it refuses the token.
pub uninterp spec fn hs256_decode(token: Seq<char>, secret: Seq<u8>) -> Option<Seq<char>>;

/// The text is the claims text of some token of this library.
pub open spec fn is_claims_text(text: Seq<char>) -> bool {
    exists|e: u64, u: i32| text == ascii_chars(#[trigger] claims_bytes(e, u))
}

/// Signs the claims text with HMAC-SHA256 under `secret`.
///
/// Calls `jsonwebtoken::encode` with `Header::new(Algorithm::HS256)`, the claims as
/// a `serde_json::value::RawValue` (written verbatim) and `EncodingKey::from_secret`.
/// Claimed: the result is a function of the claims and the secret (`hs256_encode`);
/// a claims text of this library is valid JSON, which `RawValue::from_string`
/// takes, and `encode` with an HMAC key (which takes a key of any length) and the
/// matching `HS256` header cannot fail, so it is signed; and, by the source of
/// `jsonwebtoken::decode`, a token made of a claims text of
/// this library reads back, with the same secret, to that very text: the signature
/// checks, the payload decodes to the same JSON and carries the required `exp`.
#[verifier::external_body]
fn sign_hs256(claims: &str, secret: &[u8]) -> (r: Result<String, jsonwebtoken::errors::Error>)
    ensures
        r is Ok <==> hs256_encode(claims@, secret@) is Some,
        r matches Ok(t) ==> hs256_encode(claims@, secret@) == Some(t@),
        r matches Ok(t) ==> (is_claims_text(claims@) ==> hs256_decode(t@, secret@) == Some(claims@)),
        is_claims_text(claims@) ==> r is Ok,
{
    let raw = serde_json::value::RawValue::from_string(claims.to_string())?;
    jsonwebtoken::encode(
        &jsonwebtoken::Header::new(jsonwebtoken::Algorithm::HS256),
        &raw,
        &jsonwebtoken::EncodingKey::from_secret(secret),
    )
}

/// Checks the signature of a token under `secret` and hands back its claims text.
///
/// Calls `jsonwebtoken::decode` with `DecodingKey::from_secret`, a `Validation` for
/// `HS256` whose `validate_exp` is off, and the claims read as a raw JSON value.
/// Claimed: the result is a function of the token and the secret (`hs256_decode`);
/// with `exp` and `nbf` unchecked the current time does not enter it.
#[verifier::external_body]
fn verify_hs256(token: &str, secret: &[u8]) -> (r: Result<String, jsonwebtoken::errors::Error>)
    ensures
        r is Ok <==> hs256_decode(token@, secret@) is Some,
        r matches Ok(c) ==> hs256_decode(token@, secret@) == Some(c@),
{
    let mut validation = jsonwebtoken::Validation::new(jsonwebtoken::Algorithm::HS256);
    validation.validate_exp = false;
    jsonwebtoken::decode::<Box<serde_json::value::RawValue>>(
        token,
        &jsonwebtoken::DecodingKey::from_secret(secret),
        &validation,
    ).map(|data| data.claims.get().to_string())
}

/// The current time of the system clock (`std::time::SystemTime::now`); nothing is claimed of it.
#[verifier::external_body]
pub(crate) fn clock_now() -> std::time::SystemTime {
    std::time::SystemTime::now()
}

/// Nanoseconds from the Unix epoch to `t` (`SystemTime::duration_since`), `None`
/// when `t` lies before the epoch; nothing more is claimed of it.
#[verifier::external_body]
pub(crate) fn nanos_since_epoch(t: &std::time::SystemTime) -> Option<u128> {
    t.duration_since(std::time::UNIX_EPOCH).ok().map(|d| d.as_nanos())
}

/// The claims of a token: its expiry in milliseconds since the Unix epoch and the user it names.
#[derive(Debug, Clone, Copy, PartialEq, Eq)]
pub struct JWT {
    pub exp: u64,
    pub user_id: i32,
}

/// The secret that signs tokens, at least `JWT_SECRET_MIN_BYTES` long.
pub struct JwtSecret {
    bytes: Vec<u8>,
}

impl View for JwtSecret {
    type V = Seq<u8>;

    closed spec fn view(&self) -> Seq<u8> {
        self.bytes@
    }
}

impl JwtSecret {
    #[verifier::type_invariant]
    closed spec fn inv(self) -> bool {
        self.bytes@.len() >= JWT_SECRET_MIN_BYTES
    }

    /// The secret made of `bytes`; `None` when they are fewer than `JWT_SECRET_MIN_BYTES`.
    pub fn new(bytes: Vec<u8>) -> (r: Option<JwtSecret>)
        ensures
            r is Some <==> bytes@.len() >= JWT_SECRET_MIN_BYTES,
            r matches Some(s) ==> s@ == bytes@,
    {
        if bytes.len() < JWT_SECRET_MIN_BYTES {
            None
        } else {
            Some(JwtSecret { bytes })
        }
    }

    /// The bytes of the secret.
    pub fn as_bytes(&self) -> (r: &[u8])
        ensures
            r@ == self@,
            r@.len() >= JWT_SECRET_MIN_BYTES,
    {
        proof { use_type_invariant(self); }
        self.bytes.as_slice()
    }
}

/// Why no token could be made.
#[derive(Debug)]
pub enum TokenError {
    /// The system clock stands before the Unix epoch.
    Clock,
    /// The expiry does not fit into 64 bits of milliseconds.
    ExpiryOutOfRange,
    /// `jsonwebtoken` refused to sign.
    JWTError(jsonwebtoken::errors::Error),
}

/// Why a token was refused.
#[derive(Debug)]
pub enum DecodeError {
    /// The token is signed correctly but its expiry has passed.
    Expired,
    /// `jsonwebtoken` refused the token (shape, header, algorithm or signature).
    JWTError(jsonwebtoken::errors::Error),
    /// The signed claims are not claims of this library.
    Claims,
    /// The system clock stands before the Unix epoch.
    Clock,
}

/// The claims text of a token for `exp` and `user_id`.
pub open spec fn claims_text(exp: u64, user_id: i32) -> Seq<char> {
    ascii_chars(claims_bytes(exp, user_id))
}

/// The claims that a claims text spells, if it is one of this library.
pub open spec fn claims_of(text: Seq<char>) -> Option<(u64, i32)> {
    if exists|e: u64, u: i32| encode_utf8(text) == claims_bytes(e, u) {
        Some(choose|e: u64, u: i32| encode_utf8(text) == claims_bytes(e, u))
    } else {
        None
    }
}

/// The expiry, in whole milliseconds, of a token made at `now` nanoseconds that
/// lives `lifetime` nanoseconds: the end of its life, cut to the millisecond.
pub open spec fn expiry_for(now: u128, lifetime: u128) -> int {
    (now as int + lifetime as int) / (NANOS_PER_MILLI as int)
}

/// The token has expired at `now` nanoseconds: the clock is past its expiry.
pub open spec fn is_expired(now: u128, exp: u64) -> bool {
    now > exp as int * NANOS_PER_MILLI as int
}

/// What reading `token` under `secret` at time `now` (nanoseconds) gives: the claims,
/// or which error. `None` stands for a refusal by `jsonwebtoken`.
pub open spec fn decode_outcome(token: Seq<char>, secret: Seq<u8>, now: u128) -> Result<(u64, i32), Option<DecodeErrorKind>> {
    match hs256_decode(token, secret) {
        None => Err(None),
        Some(c) => match claims_of(c) {
            None => Err(Some(DecodeErrorKind::Claims)),
            Some((e, u)) => if is_expired(now, e) {
                Err(Some(DecodeErrorKind::Expired))
            } else {
                Ok((e, u))
            },
        },
    }
}

/// What reading `token` under `secret` gives before its expiry is looked at: the
/// claims, or which error (`None` for a refusal by `jsonwebtoken`).
pub open spec fn token_claims(token: Seq<char>, secret: Seq<u8>) -> Result<(u64, i32), Option<DecodeErrorKind>> {
    match hs256_decode(token, secret) {
        None => Err(None),
        Some(c) => match claims_of(c) {
            None => Err(Some(DecodeErrorKind::Claims)),
            Some(x) => Ok(x),
        },
    }
}

/// The errors of `DecodeError` that carry no value of `jsonwebtoken`.
#[derive(Debug, Clone, Copy, PartialEq, Eq)]
pub enum DecodeErrorKind {
    Expired,
    Claims,
}

/// The claims text of our claims spells exactly those claims.
proof fn lemma_claims_of_text(e: u64, u: i32)
    ensures
        is_claims_text(claims_text(e, u)),
        claims_of(claims_text(e, u)) == Some((e, u)),
        encode_utf8(claims_text(e, u)) == claims_bytes(e, u),
{
    lemma_claims_ascii(e, u);
    lemma_ascii_text(claims_bytes(e, u));
    let t = claims_text(e, u);
    assert(encode_utf8(t) == claims_bytes(e, u));
    let w = choose|e2: u64, u2: i32| encode_utf8(t) == claims_bytes(e2, u2);
    lemma_claims_injective(w.0, w.1, e, u);
}

/// The claims text is ASCII.
proof fn lemma_claims_ascii(e: u64, u: i32)
    ensures
        all_ascii(claims_bytes(e, u)),
{
    crate::id::lemma_decimal_digits_ascii(e as nat);
    let m: nat = if u < 0 { (-(u as int)) as nat } else { u as nat };
    crate::id::lemma_decimal_digits_ascii(m);
    let b = claims_bytes(e, u);
    let d = crate::decimal::decimal_bytes(e as nat);
    let s = crate::decimal::signed_decimal_bytes(u as int);
    if u < 0 {
        assert(s =~= seq![45u8] + crate::decimal::decimal_bytes(m));
    }
    assert(b =~= crate::claims::exp_key() + d + crate::claims::user_id_key() + s + seq![125u8]);
    assert forall|i: int| 0 <= i < b.len() implies b[i] < 128 by {
        let k = d.len() as int;
        if 7 <= i < 7 + k {
            assert(b[i] == d[i - 7]);
        } else if 18 + k <= i < 18 + k + s.len() {
            assert(b[i] == s[i - 18 - k]);
        }
    }
}

impl JWT {
    /// Makes a token for `user_id` at time `now` (nanoseconds since the Unix epoch)
    /// that expires `lifetime` nanoseconds later (cut to the millisecond), signed with `secret`.
    /// It fails only when the expiry does not fit into 64 bits of milliseconds.
    pub fn create_at(user_id: i32, lifetime: u128, now: u128, secret: &JwtSecret) -> (r: Result<String, TokenError>)
        ensures
            expiry_for(now, lifetime) > u64::MAX ==> r matches Err(TokenError::ExpiryOutOfRange),
            expiry_for(now, lifetime) <= u64::MAX ==> {
                let exp = expiry_for(now, lifetime) as u64;
                &&& r is Ok
                &&& r matches Ok(t) ==> hs256_encode(claims_text(exp, user_id), secret@) == Some(t@)
                &&& r matches Ok(t) ==> forall|later: u128| #[trigger] decode_outcome(t@, secret@, later)
                    == if is_expired(later, exp) {
                        Err::<(u64, i32), Option<DecodeErrorKind>>(Some(DecodeErrorKind::Expired))
                    } else {
                        Ok::<(u64, i32), Option<DecodeErrorKind>>((exp, user_id))
                    }
            },
    {
        if now > u128::MAX - lifetime {
            proof {
                let total: int = now as int + lifetime as int;
                assert(total / 1000000 > u64::MAX) by (nonlinear_arith)
                    requires total > 340282366920938463463374607431768211455int;
            }
            return Err(TokenError::ExpiryOutOfRange);
        }
        let millis: u128 = (now + lifetime) / NANOS_PER_MILLI;
        if millis > u64::MAX as u128 {
            return Err(TokenError::ExpiryOutOfRange);
        }
        let exp: u64 = millis as u64;
        let bytes: Vec<u8> = write_claims(exp, user_id);
        proof {
            lemma_claims_ascii(exp, user_id);
            lemma_claims_of_text(exp, user_id);
        }
        let text: String = ascii_to_string(bytes.as_slice());
        assert(text@ == claims_text(exp, user_id));
        match sign_hs256(text.as_str(), secret.as_bytes()) {
            Ok(t) => Ok(t),
            Err(e) => Err(TokenError::JWTError(e)),
        }
    }

    /// Makes a token for `user_id` that expires `lifetime` nanoseconds from now (cut to
    /// the millisecond), signed with `secret`. Fails with `Clock` when the clock stands
    /// before the Unix epoch and with `ExpiryOutOfRange` as `create_at` does at the time
    /// read from the clock; it never fails to sign.
    pub fn create(user_id: i32, lifetime: u128, secret: &JwtSecret) -> (r: Result<String, TokenError>)
        ensures
            r matches Ok(t) ==> exists|now: u128| {
                &&& #[trigger] expiry_for(now, lifetime) <= u64::MAX
                &&& hs256_encode(claims_text(expiry_for(now, lifetime) as u64, user_id), secret@) == Some(t@)
                &&& forall|later: u128| !is_expired(later, expiry_for(now, lifetime) as u64) ==>
                    #[trigger] decode_outcome(t@, secret@, later)
                        == Ok::<(u64, i32), Option<DecodeErrorKind>>((expiry_for(now, lifetime) as u64, user_id))
            },
            r matches Err(e) ==> e is Clock || e is ExpiryOutOfRange,
            r matches Err(TokenError::ExpiryOutOfRange) ==> exists|now: u128| #[trigger] expiry_for(now, lifetime) > u64::MAX,
    {
        let clock = clock_now();
        match nanos_since_epoch(&clock) {
            None => Err(TokenError::Clock),
            Some(now) => {
                let r = JWT::create_at(user_id, lifetime, now, secret);
                proof {
                    if r matches Err(TokenError::ExpiryOutOfRange) {
                        assert(expiry_for(now, lifetime) > u64::MAX);
                    }
                }
                r
            }
        }
    }

    /// Checks the signature of a token and reads its claims; the expiry is not looked at.
    fn read_token(token: &str, secret: &JwtSecret) -> (r: Result<(u64, i32), DecodeError>)
        ensures
            match token_claims(token@, secret@) {
                Ok(x) => r == Ok::<(u64, i32), DecodeError>(x),
                Err(None) => r matches Err(DecodeError::JWTError(_)),
                Err(Some(_)) => r matches Err(DecodeError::Claims),
            },
    {
        match verify_hs256(token, secret.as_bytes()) {
            Err(e) => Err(DecodeError::JWTError(e)),
            Ok(c) => {
                let bytes: &[u8] = c.as_str().as_bytes();
                match read_claims(bytes) {
                    None => {
                        assert(claims_of(c@) is None);
                        Err(DecodeError::Claims)
                    },
                    Some((e, u)) => {
                        proof {
                            let w = choose|e2: u64, u2: i32| encode_utf8(c@) == claims_bytes(e2, u2);
                            lemma_claims_injective(w.0, w.1, e, u);
                        }
                        Ok((e, u))
                    },
                }
            },
        }
    }

    /// Reads a token signed with `secret` with the clock's reading `clock`
    /// (nanoseconds since the Unix epoch; `None` when the clock stands before it).
    /// The reading matters only for a token whose signature and claims check.
    pub fn decode_with_clock(token: &str, secret: &JwtSecret, clock: Option<u128>) -> (r: Result<JWT, DecodeError>)
        ensures
            decoded_as(r, token@, secret@, clock),
            token_claims(token@, secret@) is Ok && clock is Some ==>
                ((r matches Err(DecodeError::Expired)) <==> clock->Some_0 as int > token_claims(token@, secret@)->Ok_0.0 as int * 1_000_000),
    {
        match JWT::read_token(token, secret) {
            Err(e) => Err(e),
            Ok((e, u)) => match clock {
                None => Err(DecodeError::Clock),
                Some(now) => {
                    if now > (e as u128) * NANOS_PER_MILLI {
                        Err(DecodeError::Expired)
                    } else {
                        Ok(JWT { exp: e, user_id: u })
                    }
                },
            },
        }
    }

    /// Reads a token signed with `secret` at time `now` (nanoseconds since the Unix epoch).
    pub fn decode_at(token: &str, secret: &JwtSecret, now: u128) -> (r: Result<JWT, DecodeError>)
        ensures
            match decode_outcome(token@, secret@, now) {
                Ok((e, u)) => r == Ok::<JWT, DecodeError>(JWT { exp: e, user_id: u }),
                Err(None) => r matches Err(DecodeError::JWTError(_)),
                Err(Some(DecodeErrorKind::Claims)) => r matches Err(DecodeError::Claims),
                Err(Some(DecodeErrorKind::Expired)) => r matches Err(DecodeError::Expired),
            },
    {
        JWT::decode_with_clock(token, secret, Some(now))
    }

    /// Reads a token signed with `secret` at the current time of the system clock:
    /// what `decode_with_clock` gives for the clock's reading.
    pub fn decode(token: &str, secret: &JwtSecret) -> (r: Result<JWT, DecodeError>)
        ensures
            exists|clock: Option<u128>| #[trigger] decoded_as(r, token@, secret@, clock),
            token_claims(token@, secret@) == Err::<(u64, i32), Option<DecodeErrorKind>>(None) ==> r matches Err(DecodeError::JWTError(_)),
            token_claims(token@, secret@) matches Err(Some(_)) ==> r matches Err(DecodeError::Claims),
            r matches Ok(jwt) ==> exists|now: u128| #[trigger] decode_outcome(token@, secret@, now)
                == Ok::<(u64, i32), Option<DecodeErrorKind>>((jwt.exp, jwt.user_id)),
    {
        let time = clock_now();
        let clock: Option<u128> = nanos_since_epoch(&time);
        let r = JWT::decode_with_clock(token, secret, clock);
        proof {
            if r is Ok {
                assert(decode_outcome(token@, secret@, clock->Some_0) == Ok::<(u64, i32), Option<DecodeErrorKind>>((r->Ok_0.exp, r->Ok_0.user_id)));
            }
        }
        r
    }
}

/// `r` is what reading `token` under `secret` gives with the clock's reading `clock`:
/// `JWTError` when `jsonwebtoken` refuses the token, `Claims` when its claims are not
/// this library's; else `Clock` without a reading, `Expired` when the reading is past
/// the expiry, and the claims otherwise.
pub open spec fn decoded_as(r: Result<JWT, DecodeError>, token: Seq<char>, secret: Seq<u8>, clock: Option<u128>) -> bool {
    match token_claims(token, secret) {
        Err(None) => r matches Err(DecodeError::JWTError(_)),
        Err(Some(_)) => r matches Err(DecodeError::Claims),
        Ok((e, u)) => match clock {
            None => r matches Err(DecodeError::Clock),
            Some(now) => if is_expired(now, e) {
                r matches Err(DecodeError::Expired)
            } else {
                r == Ok::<JWT, DecodeError>(JWT { exp: e, user_id: u })
            },
        },
    }
}

/// A token made at `now` nanoseconds to live `lifetime` nanoseconds expires at the
/// whole millisecond `(now + lifetime) / 1_000_000`; a token is expired at a clock
/// reading exactly when the reading, in nanoseconds, is past its expiry in
/// milliseconds times 1_000_000.
pub proof fn law_expiry_arithmetic(now: u128, lifetime: u128, exp: u64)
    ensures
        expiry_for(now, lifetime) == (now as int + lifetime as int) / 1_000_000,
        is_expired(now, exp) <==> now as int > exp as int * 1_000_000,
{
}

/// Reading a token whose signature and claims check, with expiry `e`, gives
/// `Expired` exactly when the clock reading is later than `e * 1_000_000`
/// nanoseconds, and the claims themselves otherwise: every reading after the
/// expiry refuses the token, however long after.
pub proof fn law_read_refused_exactly_after_expiry(r: Result<JWT, DecodeError>, token: Seq<char>, secret: Seq<u8>, now: u128)
    requires
        decoded_as(r, token, secret, Some(now)),
        token_claims(token, secret) is Ok,
    ensures
        (r matches Err(DecodeError::Expired)) <==> now as int > token_claims(token, secret)->Ok_0.0 as int * 1_000_000,
        now as int <= token_claims(token, secret)->Ok_0.0 as int * 1_000_000 ==> r == Ok::<JWT, DecodeError>(JWT {
            exp: token_claims(token, secret)->Ok_0.0,
            user_id: token_claims(token, secret)->Ok_0.1,
        }),
{
}

/// `r` is how a request with the cookie `cookie` is answered when its token is read
/// under `secret` with the clock's reading `clock`: 401 without a cookie, 400 for a
/// token that `jsonwebtoken` refuses or whose claims are not this library's, 500
/// without a reading, 401 for an expired token, and the claims otherwise.
pub open spec fn cookie_answer(r: Result<Auth, (u16, AuthError)>, cookie: Option<&str>, secret: Seq<u8>, clock: Option<u128>) -> bool {
    match cookie {
        None => r matches Err((401, AuthError::NoJWT)),
        Some(t) => match token_claims(t@, secret) {
            Err(None) => r matches Err((400, AuthError::JWTError(_))),
            Err(Some(_)) => r matches Err((400, AuthError::Claims)),
            Ok((e, u)) => match clock {
                None => r matches Err((500, AuthError::Clock)),
                Some(now) => if is_expired(now, e) {
                    r matches Err((401, AuthError::Expired))
                } else {
                    r matches Ok(a) && a.0 == JWT { exp: e, user_id: u }
                },
            },
        },
    }
}

/// A request that carried a valid token.
#[derive(Debug)]
pub struct Auth(pub JWT);

/// Why a request is not authenticated.
#[derive(Debug)]
pub enum AuthError {
    /// `jsonwebtoken` refused the token.
    JWTError(jsonwebtoken::errors::Error),
    /// The request carries no `jwt` cookie.
    NoJWT,
    /// The token has expired.
    Expired,
    /// The signed claims are not claims of this library.
    Claims,
    /// The system clock stands before the Unix epoch.
    Clock,
}


impl Auth {
    /// The claims of the token.
    pub fn get_jwt(self) -> (r: JWT)
        ensures
            r == self.0,
    {
        self.0
    }

    /// What a token read gives a request: the claims, or the status and error that refuse it.
    pub fn from_decoded(decoded: Result<JWT, DecodeError>) -> (r: Result<Auth, (u16, AuthError)>)
        ensures
            match decoded {
                Ok(jwt) => r matches Ok(a) && a.0 == jwt,
                Err(DecodeError::Expired) => r matches Err((401, AuthError::Expired)),
                Err(DecodeError::JWTError(_)) => r matches Err((400, AuthError::JWTError(_))),
                Err(DecodeError::Claims) => r matches Err((400, AuthError::Claims)),
                Err(DecodeError::Clock) => r matches Err((500, AuthError::Clock)),
            },
    {
        match decoded {
            Ok(jwt) => Ok(Auth(jwt)),
            Err(DecodeError::Expired) => Err((STATUS_UNAUTHORIZED, AuthError::Expired)),
            Err(DecodeError::JWTError(e)) => Err((STATUS_BAD_REQUEST, AuthError::JWTError(e))),
            Err(DecodeError::Claims) => Err((STATUS_BAD_REQUEST, AuthError::Claims)),
            Err(DecodeError::Clock) => Err((STATUS_INTERNAL_SERVER_ERROR, AuthError::Clock)),
        }
    }

    /// Authenticates a request by the value of its `jwt` cookie, if it has one, with
    /// the clock's reading `clock` (nanoseconds since the Unix epoch, if it has one).
    pub fn from_cookie_with_clock(cookie: Option<&str>, secret: &JwtSecret, clock: Option<u128>) -> (r: Result<Auth, (u16, AuthError)>)
        ensures
            cookie_answer(r, cookie, secret@, clock),
    {
        match cookie {
            None => Err((STATUS_UNAUTHORIZED, AuthError::NoJWT)),
            Some(token) => Auth::from_decoded(JWT::decode_with_clock(token, secret, clock)),
        }
    }

    /// Authenticates a request by the value of its `jwt` cookie, if it has one, at
    /// the current time of the system clock: what `from_cookie_with_clock` gives for
    /// the clock's reading.
    pub fn from_cookie(cookie: Option<&str>, secret: &JwtSecret) -> (r: Result<Auth, (u16, AuthError)>)
        ensures
            exists|clock: Option<u128>| #[trigger] cookie_answer(r, cookie, secret@, clock),
            cookie is None ==> r matches Err((401, AuthError::NoJWT)),
            cookie matches Some(t) && hs256_decode(t@, secret@) is None ==> r matches Err((400, AuthError::JWTError(_))),
            cookie matches Some(t) ==> (token_claims(t@, secret@) is Err && token_claims(t@, secret@)->Err_0 is Some
                ==> r matches Err((400, AuthError::Claims))),
            r matches Err((500, _)) ==> cookie matches Some(t) && token_claims(t@, secret@) is Ok,
            r matches Ok(a) ==> cookie matches Some(t) && exists|now: u128| #[trigger] decode_outcome(t@, secret@, now)
                == Ok::<(u64, i32), Option<DecodeErrorKind>>((a.0.exp, a.0.user_id)),
    {
        let time = clock_now();
        let clock: Option<u128> = nanos_since_epoch(&time);
        let r = Auth::from_cookie_with_clock(cookie, secret, clock);
        proof {
            if r is Ok {
                let t = cookie->Some_0;
                let a = r->Ok_0;
                assert(decode_outcome(t@, secret@, clock->Some_0) == Ok::<(u64, i32), Option<DecodeErrorKind>>((a.0.exp, a.0.user_id)));
            }
        }
        r
    }
}

} // verus!
