use vstd::prelude::*;
use vstd::string::*;
use crate::decimal::{
    IntErrorKind, decimal_bytes, parse_nonzero, parse_nonzero_exec, push_decimal,
    lemma_decimal_bytes_shape, lemma_parse_decimal_roundtrip,
};
use crate::text::{all_ascii, ascii_chars, ascii_to_string, lemma_ascii_text};

verus! {

/// A positive 32-bit identifier of a row in the database.
#[derive(Debug, Clone, Copy, PartialEq, Eq)]
pub struct ID {
    value: u32,
}

/// A number that could not be read as an identifier.
#[derive(Debug, Clone, Copy, PartialEq, Eq)]
pub struct ParseIntError {
    pub kind: IntErrorKind,
}

/// Why a value read from the database is no identifier.
#[derive(Debug, Clone, Copy, PartialEq, Eq)]
pub enum IdDecodeError {
    /// The column held NULL.
    Null,
    /// The column held zero.
    Zero,
}

impl View for ID {
    type V = u32;

    closed spec fn view(&self) -> u32 {
        self.value
    }
}

/// The decimal text of a number, as characters.
pub open spec fn decimal_text(n: nat) -> Seq<char> {
    ascii_chars(decimal_bytes(n))
}

/// What reading `text` as an identifier gives: the number, or why there is none.
pub open spec fn spec_parse_id(text: Seq<u8>) -> Result<u32, IntErrorKind> {
    match parse_nonzero(text, u32::MAX as nat) {
        Ok(v) => Ok(v as u32),
        Err(e) => Err(e),
    }
}

impl ID {
    #[verifier::type_invariant]
    closed spec fn inv(self) -> bool {
        self.value != 0
    }

    /// The identifier `value`; `None` when it is zero.
    pub fn new(value: u32) -> (r: Option<ID>)
        ensures
            r is Some <==> value != 0,
            r matches Some(id) ==> id@ == value,
    {
        if value == 0 {
            None
        } else {
            Some(ID { value })
        }
    }

    /// The identifier of a user id taken from a token; `None` unless it is positive.
    pub fn from_user_id(user_id: i32) -> (r: Option<ID>)
        ensures
            r is Some <==> user_id > 0,
            r matches Some(id) ==> id@ == user_id,
    {
        if user_id > 0 {
            Some(ID { value: user_id as u32 })
        } else {
            None
        }
    }

    /// The number, which is never zero.
    pub fn get(&self) -> (r: u32)
        ensures
            r == self@,
            r != 0,
    {
        proof { use_type_invariant(self); }
        self.value
    }

    /// Reads an identifier from a path segment: a positive decimal number that fits into 32 bits.
    pub fn from_param(param: &str) -> (r: Result<ID, ParseIntError>)
        ensures
            match spec_parse_id(param.spec_bytes()) {
                Ok(v) => r matches Ok(id) && id@ == v,
                Err(e) => r == Err::<ID, ParseIntError>(ParseIntError { kind: e }),
            },
    {
        match parse_nonzero_exec(param, u32::MAX as u64) {
            Ok(v) => Ok(ID { value: v as u32 }),
            Err(e) => Err(ParseIntError { kind: e }),
        }
    }

    /// Reads an identifier from a database column, which may be NULL.
    pub fn decode(value: Option<u32>) -> (r: Result<ID, IdDecodeError>)
        ensures
            match value {
                None => r == Err::<ID, IdDecodeError>(IdDecodeError::Null),
                Some(0) => r == Err::<ID, IdDecodeError>(IdDecodeError::Zero),
                Some(v) => r matches Ok(id) && id@ == v,
            },
    {
        match value {
            None => Err(IdDecodeError::Null),
            Some(v) => if v == 0 { Err(IdDecodeError::Zero) } else { Ok(ID { value: v }) },
        }
    }

    /// The decimal text of the identifier.
    pub fn to_string(&self) -> (r: String)
        ensures
            r@ == decimal_text(self@ as nat),
            r@.len() >= 1,
    {
        let mut digits: Vec<u8> = Vec::new();
        push_decimal(&mut digits, self.value as u64);
        proof { lemma_decimal_digits_ascii(self.value as nat); }
        assert(digits@ =~= decimal_bytes(self.value as nat));
        ascii_to_string(digits.as_slice())
    }
}

/// Decimal digits are ASCII.
pub proof fn lemma_decimal_digits_ascii(n: nat)
    ensures
        all_ascii(decimal_bytes(n)),
{
    lemma_decimal_bytes_shape(n);
}

/// Writing an identifier in decimal and reading it back gives the same identifier.
pub proof fn law_id_text_roundtrip(n: u32)
    requires
        n != 0,
    ensures
        spec_parse_id(decimal_bytes(n as nat)) == Ok::<u32, IntErrorKind>(n),
        vstd::utf8::encode_utf8(decimal_text(n as nat)) == decimal_bytes(n as nat),
{
    lemma_parse_decimal_roundtrip(n as nat, u32::MAX as nat);
    lemma_decimal_digits_ascii(n as nat);
    lemma_ascii_text(decimal_bytes(n as nat));
}

} // verus!
