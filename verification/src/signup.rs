//! The checks of a signup request and the record that a signup writes.
use vstd::prelude::*;
use vstd::string::*;
use crate::MAX_UTF8_BYTES;
use crate::text::{byte_len, lemma_ascii_chars_utf8_len};
use crate::status::{STATUS_BAD_REQUEST, STATUS_CONFLICT, STATUS_INTERNAL_SERVER_ERROR};
use crate::login::DbError;
use crate::user::UserSignupRequest;
use crate::fixed_len_str::FixedSizedStr;
use crate::password::{argon2_check, argon2_hash, hash_password, is_argon2id_phc};

verus! {

broadcast use vstd::string::axiom_spec_iter;

/// Shortest accepted password, in bytes.
pub const MIN_PASSWORD_LENGTH: u8 = 8;

/// Longest accepted password, in bytes.
pub const MAX_PASSWORD_LENGTH: u8 = 160;

/// The character is a control character (Unicode general category `Cc`), as `char::is_control` says.
pub open spec fn is_control(c: char) -> bool {
    (c as u32) <= 0x1f || (0x7f <= (c as u32) && (c as u32) <= 0x9f)
}

/// `char::is_control`: the control characters are U+0000..=U+001F and U+007F..=U+009F.
pub fn char_is_control(c: char) -> (r: bool)
    ensures
        r == is_control(c),
{
    c <= '\u{1f}' || ('\u{7f}' <= c && c <= '\u{9f}')
}

/// The password is between `MIN_PASSWORD_LENGTH` and `MAX_PASSWORD_LENGTH` bytes long.
pub fn verify_password_length(password: &str) -> (r: bool)
    ensures
        r == (MIN_PASSWORD_LENGTH <= password.spec_bytes().len() <= MAX_PASSWORD_LENGTH),
{
    let n: usize = byte_len(password);
    MIN_PASSWORD_LENGTH as usize <= n && n <= MAX_PASSWORD_LENGTH as usize
}

/// The name is not empty and at most `MAX_UTF8_BYTES` bytes long.
pub fn verify_username_length(name: &str) -> (r: bool)
    ensures
        r == (0 < name.spec_bytes().len() <= MAX_UTF8_BYTES),
{
    let n: usize = byte_len(name);
    0 < n && n <= MAX_UTF8_BYTES
}

/// The name holds no control character.
pub fn verify_username_content(name: &str) -> (r: bool)
    ensures
        r == (forall|i: int| 0 <= i < name@.len() ==> !is_control(#[trigger] name@[i])),
{
    let mut ok: bool = true;
    for c in it: name.chars()
        invariant
            it.seq() == name@,
            ok == (forall|i: int| 0 <= i < it.index() ==> !is_control(#[trigger] name@[i])),
    {
        if char_is_control(c) {
            ok = false;
        }
    }
    ok
}

/// The e-mail address is not empty and at most `MAX_UTF8_BYTES` bytes long.
pub fn verify_email_length(email: &str) -> (r: bool)
    ensures
        r == (0 < email.spec_bytes().len() <= MAX_UTF8_BYTES),
{
    let n: usize = byte_len(email);
    0 < n && n <= MAX_UTF8_BYTES
}

/// The domain part of an address is acceptable: it holds a `.`, but does not start or end with one.
pub open spec fn domain_ok(d: Seq<u8>) -> bool {
    &&& exists|j: int| 0 <= j < d.len() && d[j] == 46u8
    &&& d[0] != 46u8
    &&& d.last() != 46u8
}

/// The shape of an e-mail address: a non-empty part before the first `@`, and after
/// it a domain that holds a `.` but does not start or end with one.
pub open spec fn email_format_ok(b: Seq<u8>) -> bool {
    exists|k: int| {
        &&& 0 < k < b.len()
        &&& #[trigger] b[k] == 64u8
        &&& forall|j: int| 0 <= j < k ==> b[j] != 64u8
        &&& domain_ok(b.subrange(k + 1, b.len() as int))
    }
}

/// An address passes the format check exactly when it has an `@` that is not its
/// first byte, and after the first `@` there is at least one byte, at least one `.`,
/// no `.` right after the `@` and no `.` at the end. In particular an address with
/// no `.` after its first `@` is refused, whatever the part before it holds.
pub proof fn law_email_format(b: Seq<u8>)
    ensures
        email_format_ok(b) <==> exists|k: int| {
            &&& 0 < k
            &&& k + 1 < b.len()
            &&& #[trigger] b[k] == 64u8
            &&& (forall|j: int| 0 <= j < k ==> b[j] != 64u8)
            &&& (exists|j: int| k < j < b.len() && b[j] == 46u8)
            &&& b[k + 1] != 46u8
            &&& b[b.len() - 1] != 46u8
        },
        (forall|k: int, j: int| 0 <= k < j < b.len() && b[k] == 64u8 && (forall|i: int| 0 <= i < k ==> b[i] != 64u8)
            ==> b[j] != 46u8) ==> !email_format_ok(b),
{
    if email_format_ok(b) {
        let k = choose|k: int| {
            &&& 0 < k < b.len()
            &&& #[trigger] b[k] == 64u8
            &&& forall|j: int| 0 <= j < k ==> b[j] != 64u8
            &&& domain_ok(b.subrange(k + 1, b.len() as int))
        };
        let d = b.subrange(k + 1, b.len() as int);
        let jd = choose|j: int| 0 <= j < d.len() && d[j] == 46u8;
        assert(b[k + 1 + jd] == 46u8);
        assert(d.len() > 0);
        assert(d[0] == b[k + 1]);
        assert(d.last() == b[b.len() - 1]);
        assert(k < k + 1 + jd < b.len() && b[k + 1 + jd] == 46u8);
    }
    if exists|k: int| {
            &&& 0 < k
            &&& k + 1 < b.len()
            &&& #[trigger] b[k] == 64u8
            &&& (forall|j: int| 0 <= j < k ==> b[j] != 64u8)
            &&& (exists|j: int| k < j < b.len() && b[j] == 46u8)
            &&& b[k + 1] != 46u8
            &&& b[b.len() - 1] != 46u8
        } {
        let k = choose|k: int| {
            &&& 0 < k
            &&& k + 1 < b.len()
            &&& #[trigger] b[k] == 64u8
            &&& (forall|j: int| 0 <= j < k ==> b[j] != 64u8)
            &&& (exists|j: int| k < j < b.len() && b[j] == 46u8)
            &&& b[k + 1] != 46u8
            &&& b[b.len() - 1] != 46u8
        };
        let j = choose|j: int| k < j < b.len() && b[j] == 46u8;
        let d = b.subrange(k + 1, b.len() as int);
        assert(d[j - k - 1] == 46u8);
        assert(domain_ok(d));
    }
}

/// Checks the shape of an e-mail address, as `email_format_ok` describes it.
pub fn verify_email_format(email: &str) -> (r: bool)
    ensures
        r == email_format_ok(email.spec_bytes()),
{
    let b: &[u8] = email.as_bytes();
    let n: usize = b.len();
    let mut k: usize = 0;
    while k < n && b[k] != 64u8
        invariant
            n == b@.len(),
            k <= n,
            forall|j: int| 0 <= j < k ==> b@[j] != 64u8,
        decreases n - k,
    {
        k = k + 1;
    }
    if k == n || k == 0 {
        proof {
            assert forall|k2: int| !(0 < k2 < b@.len() && #[trigger] b@[k2] == 64u8 && (forall|j: int| 0 <= j < k2 ==> b@[j] != 64u8)) by {
                if 0 < k2 < b@.len() && b@[k2] == 64u8 && (forall|j: int| 0 <= j < k2 ==> b@[j] != 64u8) {
                    if k2 < k { assert(b@[k2] != 64u8); }
                    if k2 > k { assert(b@[k as int] != 64u8); }
                }
            }
        }
        return false;
    }
    let d: &[u8] = vstd::slice::slice_subrange(b, k + 1, n);
    let dn: usize = d.len();
    let mut has_dot: bool = false;
    let mut i: usize = 0;
    while i < dn
        invariant
            dn == d@.len(),
            i <= dn,
            has_dot == (exists|j: int| 0 <= j < i && d@[j] == 46u8),
        decreases dn - i,
    {
        if d[i] == 46u8 {
            has_dot = true;
        }
        i = i + 1;
    }
    let ok: bool = has_dot && d[0] != 46u8 && d[dn - 1] != 46u8;
    proof {
        assert forall|k2: int| 0 < k2 < b@.len() && #[trigger] b@[k2] == 64u8 && (forall|j: int| 0 <= j < k2 ==> b@[j] != 64u8) implies k2 == k by {
            if k2 < k { assert(b@[k2] != 64u8); }
            if k2 > k { assert(b@[k as int] != 64u8); }
        }
        if ok {
            assert(b@[k as int] == 64u8);
        }
    }
    ok
}

/// Whether `text` reads as an e-mail address with `lettre::Address::from_str`.
pub uninterp spec fn mail_address_ok(text: Seq<char>) -> bool;

/// Reads `text` as an e-mail address with `lettre`'s parser (`lettre::Address`'s
/// `FromStr`, which checks the local part and the domain, IDNA included).
/// Claimed: the result is a function of the text (`mail_address_ok`).
#[verifier::external_body]
fn parse_mail_address(text: &str) -> (r: bool)
    ensures
        r == mail_address_ok(text@),
{
    text.parse::<lettre::Address>().is_ok()
}

/// Whether `email` is an e-mail address that mail can be sent to.
pub fn is_mail_address(email: &str) -> (r: bool)
    ensures
        r == mail_address_ok(email@),
{
    parse_mail_address(email)
}


/// The checks of a signup request that come before the e-mail address is read,
/// in the order of the route: password length, name length, name content,
/// e-mail length. The first that fails decides the answer.
pub open spec fn signup_fields_outcome(req: UserSignupRequest) -> Result<(), (u16, &'static str)> {
    if !(MIN_PASSWORD_LENGTH <= req.password.spec_bytes().len() <= MAX_PASSWORD_LENGTH) {
        Err((400u16, "Password length is invalid"))
    } else if !(0 < req.name.spec_bytes().len() <= MAX_UTF8_BYTES) {
        Err((400u16, "Username length is invalid"))
    } else if !(forall|i: int| 0 <= i < req.name@.len() ==> !is_control(#[trigger] req.name@[i])) {
        Err((400u16, "Username contains invalid characters"))
    } else if !(0 < req.email.spec_bytes().len() <= MAX_UTF8_BYTES) {
        Err((400u16, "Email length is invalid"))
    } else {
        Ok(())
    }
}

fn validate_signup_fields(req: &UserSignupRequest) -> (r: Result<(), (u16, &'static str)>)
    ensures
        r == signup_fields_outcome(*req),
{
    if !verify_password_length(req.password) {
        return Err((STATUS_BAD_REQUEST, "Password length is invalid"));
    }
    if !verify_username_length(req.name) {
        return Err((STATUS_BAD_REQUEST, "Username length is invalid"));
    }
    if !verify_username_content(req.name) {
        return Err((STATUS_BAD_REQUEST, "Username contains invalid characters"));
    }
    if !verify_email_length(req.email) {
        return Err((STATUS_BAD_REQUEST, "Email length is invalid"));
    }
    Ok(())
}

/// Checks a signup request; the address must have the shape of `email_format_ok`.
pub fn validate_signup(req: &UserSignupRequest) -> (r: Result<(), (u16, &'static str)>)
    ensures
        signup_fields_outcome(*req) is Err ==> r == signup_fields_outcome(*req),
        signup_fields_outcome(*req) is Ok ==> r == if email_format_ok(req.email.spec_bytes()) {
            Ok::<(), (u16, &'static str)>(())
        } else {
            Err::<(), (u16, &'static str)>((400u16, "Invalid email address"))
        },
{
    validate_signup_fields(req)?;
    if !verify_email_format(req.email) {
        return Err((STATUS_BAD_REQUEST, "Invalid email address"));
    }
    Ok(())
}

/// Checks a signup request when confirmation mail is sent; the address must read with `lettre`.
pub fn validate_signup_for_mail(req: &UserSignupRequest) -> (r: Result<(), (u16, &'static str)>)
    ensures
        signup_fields_outcome(*req) is Err ==> r == signup_fields_outcome(*req),
        signup_fields_outcome(*req) is Ok ==> r == if mail_address_ok(req.email@) {
            Ok::<(), (u16, &'static str)>(())
        } else {
            Err::<(), (u16, &'static str)>((400u16, "Invalid email address"))
        },
{
    validate_signup_fields(req)?;
    if !is_mail_address(req.email) {
        return Err((STATUS_BAD_REQUEST, "Invalid email address"));
    }
    Ok(())
}

/// The answer to the check whether the address is taken: 409 "Email already in use"
/// when it is, 500 when the database could not answer, and on to the signup when it is free.
pub fn email_taken_response(taken: Result<bool, DbError>) -> (r: Result<(), (u16, &'static str)>)
    ensures
        match taken {
            Ok(true) => r == Err::<(), (u16, &'static str)>((409u16, "Email already in use")),
            Ok(false) => r == Ok::<(), (u16, &'static str)>(()),
            Err(_) => r == Err::<(), (u16, &'static str)>((500u16, "Internal server error")),
        },
{
    match taken {
        Ok(true) => Err((STATUS_CONFLICT, "Email already in use")),
        Ok(false) => Ok(()),
        Err(_) => Err((STATUS_INTERNAL_SERVER_ERROR, "Internal server error")),
    }
}

/// The columns of a new user: name, e-mail address and the hash of the password.
pub struct NewUser {
    pub name: FixedSizedStr<MAX_UTF8_BYTES>,
    pub email: FixedSizedStr<MAX_UTF8_BYTES>,
    pub hashed_pw: FixedSizedStr<MAX_UTF8_BYTES>,
}

/// The text of an optional string.
pub open spec fn opt_text(s: Option<String>) -> Option<Seq<char>> {
    match s {
        Some(t) => Some(t@),
        None => None,
    }
}

/// What preparing the row of a new user gives, from the bytes of the name and the
/// address and the password hash (`None` when hashing failed): 500 when a column
/// does not fit into `MAX_UTF8_BYTES` bytes (name first, then address, then hash),
/// 500 "Failed to hash password" when there is no hash.
pub open spec fn new_user_outcome(name: Seq<u8>, email: Seq<u8>, hashed: Option<Seq<char>>) -> Result<(), (u16, &'static str)> {
    if name.len() > MAX_UTF8_BYTES {
        Err((500u16, "Internal server error"))
    } else if email.len() > MAX_UTF8_BYTES {
        Err((500u16, "Internal server error"))
    } else {
        match hashed {
            None => Err((500u16, "Failed to hash password")),
            Some(h) => if vstd::utf8::encode_utf8(h).len() > MAX_UTF8_BYTES {
                Err((500u16, "Internal server error"))
            } else {
                Ok(())
            },
        }
    }
}

/// The result `r` is what `new_user_outcome` says: the same error, or a row that holds
/// exactly the name, the address and the hash.
pub open spec fn new_user_result(r: Result<NewUser, (u16, &'static str)>, name: Seq<u8>, email: Seq<u8>, hashed: Option<Seq<char>>) -> bool {
    match new_user_outcome(name, email, hashed) {
        Err(e) => r == Err::<NewUser, (u16, &'static str)>(e),
        Ok(()) => r matches Ok(u) && {
            &&& u.name@ == name
            &&& u.email@ == email
            &&& hashed == Some(u.hashed_pw.text())
        },
    }
}

/// The hash is one that `argon2_hash` makes of the password under some salt
/// (`None`: one under which it fails).
pub open spec fn drawn_hash(password: Seq<u8>, hashed: Option<Seq<char>>) -> bool {
    match hashed {
        Some(h) => exists|salt: Seq<char>| #[trigger] argon2_hash(password, salt) == Some(h),
        None => exists|salt: Seq<char>| #[trigger] argon2_hash(password, salt) is None,
    }
}

/// The row of a new user from its name, address and password hash (`None` when hashing failed).
pub fn prepare_user_with_hash(name: &str, email: &str, hashed: Option<String>) -> (r: Result<NewUser, (u16, &'static str)>)
    ensures
        new_user_result(r, name.spec_bytes(), email.spec_bytes(), opt_text(hashed)),
{
    let name_fixed: FixedSizedStr<MAX_UTF8_BYTES> = match FixedSizedStr::new_from_str(name) {
        Ok(s) => s,
        Err(_) => { return Err((STATUS_INTERNAL_SERVER_ERROR, "Internal server error")); },
    };
    let email_fixed: FixedSizedStr<MAX_UTF8_BYTES> = match FixedSizedStr::new_from_str(email) {
        Ok(s) => s,
        Err(_) => { return Err((STATUS_INTERNAL_SERVER_ERROR, "Internal server error")); },
    };
    let hashed: String = match hashed {
        Some(h) => h,
        None => { return Err((STATUS_INTERNAL_SERVER_ERROR, "Failed to hash password")); },
    };
    let hashed_fixed: FixedSizedStr<MAX_UTF8_BYTES> = match FixedSizedStr::new_from_str(hashed.as_str()) {
        Ok(s) => s,
        Err(_) => { return Err((STATUS_INTERNAL_SERVER_ERROR, "Internal server error")); },
    };
    Ok(NewUser { name: name_fixed, email: email_fixed, hashed_pw: hashed_fixed })
}

/// Prepares the row of a new user: the name and the address as stored, and the
/// password hashed with a fresh salt. The password is hashed only when the name
/// and the address fit; then an error can only come from hashing (no hash, or one
/// longer than a column holds). A row it returns holds a hash that accepts the password.
pub fn prepare_user(name: &str, email: &str, password: &str) -> (r: Result<NewUser, (u16, &'static str)>)
    ensures
        name.spec_bytes().len() > MAX_UTF8_BYTES || email.spec_bytes().len() > MAX_UTF8_BYTES ==>
            new_user_result(r, name.spec_bytes(), email.spec_bytes(), None),
        name.spec_bytes().len() <= MAX_UTF8_BYTES && email.spec_bytes().len() <= MAX_UTF8_BYTES ==>
            exists|hashed: Option<Seq<char>>| #[trigger] drawn_hash(password.spec_bytes(), hashed)
                && new_user_result(r, name.spec_bytes(), email.spec_bytes(), hashed),
        name.spec_bytes().len() <= MAX_UTF8_BYTES && email.spec_bytes().len() <= MAX_UTF8_BYTES
            && password.spec_bytes().len() <= 0xFFFFFFFF ==> r is Ok,
        r matches Err((code, _)) ==> code == 500,
        r matches Ok(u) ==> {
            &&& u.name@ == name.spec_bytes()
            &&& u.email@ == email.spec_bytes()
            &&& argon2_check(password.spec_bytes(), u.hashed_pw.text()) == Some(true)
            &&& exists|salt: Seq<char>| #[trigger] argon2_hash(password.spec_bytes(), salt) == Some(u.hashed_pw.text())
                && is_argon2id_phc(u.hashed_pw.text(), salt)
        },
{
    if byte_len(name) > MAX_UTF8_BYTES || byte_len(email) > MAX_UTF8_BYTES {
        return prepare_user_with_hash(name, email, None);
    }
    let hashed: Option<String> = hash_password(password);
    proof {
        if hashed is Some {
            lemma_ascii_chars_utf8_len(hashed->Some_0@);
        }
    }
    let r = prepare_user_with_hash(name, email, hashed);
    proof {
        assert(drawn_hash(password.spec_bytes(), opt_text(hashed)));
    }
    r
}

} // verus!
