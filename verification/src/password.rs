//! Argon2id password hashes in the PHC string format.
use vstd::prelude::*;
use vstd::string::*;
use argon2::PasswordHasher;
use argon2::PasswordVerifier;
use crate::text::all_ascii_chars;

verus! {

/// The PHC string that `Argon2::default().hash_password` makes of the password
/// bytes and the B64 salt text; `None` when it fails (a malformed salt, say).
pub uninterp spec fn argon2_hash(password: Seq<u8>, salt: Seq<char>) -> Option<Seq<char>>;

/// What checking the password bytes against a PHC string gives: `None` when
/// `PasswordHash::new` cannot read the string, else whether
/// `Argon2::default().verify_password` accepts the password.
pub uninterp spec fn argon2_check(password: Seq<u8>, phc: Seq<char>) -> Option<bool>;

/// The head of the PHC string that `Argon2::default()` writes for a salt: the
/// algorithm `argon2id`, version 19, the default costs and the salt, each after a `$`.
pub open spec fn argon2id_head(salt: Seq<char>) -> Seq<char> {
    "$argon2id$v=19$m=19456,t=2,p=1$"@ + salt + seq!['$']
}

/// The string is an Argon2id PHC string with this salt: the head, then the hash.
pub open spec fn is_argon2id_phc(phc: Seq<char>, salt: Seq<char>) -> bool {
    &&& argon2id_head(salt).len() < phc.len()
    &&& phc.subrange(0, argon2id_head(salt).len() as int) == argon2id_head(salt)
}

/// A character of B64, the standard Base64 alphabet: `A`-`Z`, `a`-`z`, `0`-`9`, `+`, `/`.
pub open spec fn is_b64_char(c: char) -> bool {
    let v = c as u32;
    (65 <= v <= 90) || (97 <= v <= 122) || (48 <= v <= 57) || v == 43 || v == 47
}

/// The text is the B64 encoding (no padding) of 16 bytes: 22 characters of B64,
/// the last of which carries only two bits (`A`, `Q`, `g` or `w`).
pub open spec fn is_salt_text(s: Seq<char>) -> bool {
    &&& s.len() == 22
    &&& forall|i: int| 0 <= i < 22 ==> is_b64_char(#[trigger] s[i])
    &&& (s[21] == 'A' || s[21] == 'Q' || s[21] == 'g' || s[21] == 'w')
}

/// A fresh random salt (`SaltString::generate` with `OsRng`), as its B64 text.
/// Claimed, by the source of `password-hash`: it is the B64 encoding of
/// `Salt::RECOMMENDED_LENGTH` (16) random bytes; which bytes is not claimed.
#[verifier::external_body]
fn random_salt() -> (r: String)
    ensures
        is_salt_text(r@),
{
    argon2::password_hash::SaltString::generate(&mut argon2::password_hash::rand_core::OsRng)
        .as_str()
        .to_string()
}

/// Hashes the password with Argon2id under the given salt.
///
/// Calls `argon2::PasswordHasher::hash_password` on `Argon2::default()` after
/// `SaltString::from_b64`. Claimed: the result is a function of its arguments
/// (`argon2_hash`); by the source of `password-hash` (`verify_password`
/// rehashes with the salt and parameters that the PHC string carries) the
/// string it makes accepts the same password; and by the `Display` of
/// `PasswordHash` with the defaults of `argon2` (Argon2id, version 0x13,
/// m=19456, t=2, p=1) the string is `$argon2id$v=19$m=19456,t=2,p=1$`, the salt,
/// `$` and the 32-byte hash in B64 (43 characters), all ASCII. It succeeds for the
/// B64 text of 16 bytes and a password of at most `u32::MAX` bytes: the salt
/// decodes to 16 bytes (at least the 8 that Argon2 needs), and the default output
/// length and parameters are valid.
#[verifier::external_body]
fn hash_with_salt(password: &[u8], salt: &str) -> (r: Option<String>)
    ensures
        r is Some <==> argon2_hash(password@, salt@) is Some,
        r matches Some(h) ==> argon2_hash(password@, salt@) == Some(h@),
        r matches Some(h) ==> argon2_check(password@, h@) == Some(true),
        r matches Some(h) ==> is_argon2id_phc(h@, salt@),
        r matches Some(h) ==> h@.len() == argon2id_head(salt@).len() + 43 && all_ascii_chars(h@),
        is_salt_text(salt@) && password@.len() <= 0xFFFFFFFF ==> r is Some,
{
    let salt = argon2::password_hash::SaltString::from_b64(salt).ok()?;
    argon2::Argon2::default().hash_password(password, &salt).ok().map(|h| h.to_string())
}

/// Checks a password against a PHC string.
///
/// Calls `argon2::password_hash::PasswordHash::new` on the string and, when it
/// reads, `argon2::PasswordVerifier::verify_password` on `Argon2::default()`.
/// Claimed: the result is a function of its arguments (`argon2_check`).
#[verifier::external_body]
fn check_with_hash(password: &[u8], phc: &str) -> (r: Option<bool>)
    ensures
        r == argon2_check(password@, phc@),
{
    let hash = argon2::password_hash::PasswordHash::new(phc).ok()?;
    Some(argon2::Argon2::default().verify_password(password, &hash).is_ok())
}

/// Hashes `password` with a fresh random salt. A string it returns accepts the same password;
/// it returns nothing only when Argon2 refuses the password under the salt it drew.
pub fn hash_password(password: &str) -> (r: Option<String>)
    ensures
        r matches Some(h) ==> argon2_check(password.spec_bytes(), h@) == Some(true),
        r matches Some(h) ==> exists|salt: Seq<char>| #[trigger] argon2_hash(password.spec_bytes(), salt) == Some(h@)
            && is_argon2id_phc(h@, salt),
        r is None ==> exists|salt: Seq<char>| #[trigger] argon2_hash(password.spec_bytes(), salt) is None,
        r matches Some(h) ==> h@.len() == 97 && all_ascii_chars(h@),
        password.spec_bytes().len() <= 0xFFFFFFFF ==> r is Some,
{
    let salt: String = random_salt();
    let r = hash_with_salt(password.as_bytes(), salt.as_str());
    proof {
        reveal_strlit("$argon2id$v=19$m=19456,t=2,p=1$");
        assert(argon2id_head(salt@).len() == 54);
    }
    r
}

/// Whether `password` matches the PHC string `phc`; a string that cannot be read matches nothing.
pub fn verify_password(password: &str, phc: &str) -> (r: bool)
    ensures
        r == (argon2_check(password.spec_bytes(), phc@) == Some(true)),
{
    match check_with_hash(password.as_bytes(), phc) {
        Some(ok) => ok,
        None => false,
    }
}

} // verus!
