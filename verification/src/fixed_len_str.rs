use vstd::prelude::*;
use vstd::utf8::*;
use vstd::string::*;
use crate::text::utf8_to_str;

verus! {

broadcast use vstd::utf8::encode_utf8_valid_utf8;

/// A string of at most `BYTES` bytes of UTF-8, stored inline.
pub struct FixedSizedStr<const BYTES: usize> {
    len: usize,
    bytes: [u8; BYTES],
}

/// A byte buffer of exactly `BYTES` bytes.
pub struct FixedStr<const BYTES: usize> {
    bytes: [u8; BYTES],
}

/// The text given to a `FixedSizedStr` does not fit into its capacity.
#[derive(Debug, Clone, Copy, PartialEq, Eq)]
pub struct TooLong;

impl<const BYTES: usize> View for FixedSizedStr<BYTES> {
    type V = Seq<u8>;

    /// The UTF-8 bytes that the string holds.
    closed spec fn view(&self) -> Seq<u8> {
        self.bytes@.subrange(0, self.len as int)
    }
}

impl<const BYTES: usize> FixedSizedStr<BYTES> {
    #[verifier::type_invariant]
    closed spec fn inv(self) -> bool {
        &&& self.len <= BYTES
        &&& valid_utf8(self.bytes@.subrange(0, self.len as int))
    }

    /// The characters that the string holds.
    pub open spec fn text(&self) -> Seq<char> {
        decode_utf8(self@)
    }

    /// Copies `value` in; refuses it when its UTF-8 encoding is longer than `BYTES`.
    pub fn new_from_str(value: &str) -> (r: Result<Self, TooLong>)
        ensures
            r is Ok <==> value.spec_bytes().len() <= BYTES,
            r matches Ok(s) ==> s@ == value.spec_bytes() && s.text() == value@,
    {
        let src: &[u8] = value.as_bytes();
        let n: usize = src.len();
        if n > BYTES {
            return Err(TooLong);
        }
        let mut bytes: [u8; BYTES] = [0u8; BYTES];
        let mut i: usize = 0;
        while i < n
            invariant
                n == src@.len(),
                n <= BYTES,
                i <= n,
                bytes@.len() == BYTES,
                bytes@.subrange(0, i as int) == src@.subrange(0, i as int),
            decreases n - i,
        {
            bytes[i] = src[i];
            i = i + 1;
            assert(bytes@.subrange(0, i as int) =~= src@.subrange(0, i as int));
        }
        assert(src@.subrange(0, n as int) =~= src@);
        proof {
            vstd::utf8::encode_utf8_decode_utf8(value@);
        }
        Ok(FixedSizedStr { len: n, bytes })
    }

    /// The number of bytes the string holds.
    pub fn len(&self) -> (r: usize)
        ensures
            r == self@.len(),
            r <= BYTES,
    {
        proof { use_type_invariant(self); }
        self.len
    }

    /// The text as a string slice.
    pub fn as_str(&self) -> (r: &str)
        ensures
            r.spec_bytes() == self@,
            r@ == self.text(),
    {
        proof { use_type_invariant(self); }
        let all: &[u8] = self.bytes.as_slice();
        let part: &[u8] = vstd::slice::slice_subrange(all, 0, self.len);
        match utf8_to_str(part) {
            Some(s) => {
                proof {
                    vstd::utf8::encode_utf8_decode_utf8(s@);
                }
                s
            }
            None => {
                proof { assert(false); }
                ""
            }
        }
    }
}

} // verus!
