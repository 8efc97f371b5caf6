//! Verified core of a self-hosted cloud storage backend: fixed-capacity strings,
//! identifiers, JWT claims, password hashing, file entries, the queries of the
//! repositories and the decisions that the HTTP routes take.
use vstd::prelude::*;

pub mod claims;
pub mod decimal;
pub mod email;
pub mod file;
pub mod fixed_len_str;
pub mod id;
pub mod jwt;
pub mod login;
pub mod object_storage;
pub mod password;
pub mod repository;
pub mod routes;
pub mod signup;
pub mod status;
pub mod text;
pub mod upload;
pub mod user;

verus! {

/// Number of characters that a name or e-mail column of the database holds.
pub const DB_STRING_LENGTH: usize = 40;

/// Bytes that `DB_STRING_LENGTH` characters take at most in UTF-8 (four per character).
pub const MAX_UTF8_BYTES: usize = 160;

} // verus!
