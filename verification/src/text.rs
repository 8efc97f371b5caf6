use vstd::prelude::*;
use vstd::utf8::*;
use vstd::string::*;

verus! {

broadcast use vstd::utf8::encode_utf8_valid_utf8;

/// Every byte is ASCII.
pub open spec fn all_ascii(bytes: Seq<u8>) -> bool {
    forall|i: int| 0 <= i < bytes.len() ==> bytes[i] < 128
}

/// The characters whose numbers are the given bytes.
pub open spec fn ascii_chars(bytes: Seq<u8>) -> Seq<char> {
    bytes.map_values(|b: u8| (b as u32) as char)
}

/// Turns valid UTF-8 bytes into a string slice.
///
/// Calls `core::str::from_utf8`; its documentation promises `Ok` exactly when the
/// bytes are valid UTF-8, with a `str` whose bytes are the input.
#[verifier::external_body]
pub(crate) fn utf8_to_str<'a>(bytes: &'a [u8]) -> (r: Option<&'a str>)
    ensures
        r is Some <==> valid_utf8(bytes@),
        r matches Some(s) ==> s.spec_bytes() == bytes@,
{
    core::str::from_utf8(bytes).ok()
}

/// The number of bytes of UTF-8 in `s`.
pub fn byte_len(s: &str) -> (n: usize)
    ensures
        n == s.spec_bytes().len(),
{
    s.as_bytes().len()
}

/// ASCII bytes are valid UTF-8, and decode to the characters of the same numbers.
pub proof fn lemma_ascii_utf8(bytes: Seq<u8>)
    requires
        all_ascii(bytes),
    ensures
        valid_utf8(bytes),
        decode_utf8(bytes).len() == bytes.len(),
        forall|i: int| 0 <= i < bytes.len() ==> decode_utf8(bytes)[i] as u32 == bytes[i] as u32,
    decreases bytes.len(),
{
    reveal_with_fuel(valid_utf8, 2);
    if bytes.len() > 0 {
        let rest = bytes.drop_first();
        assert(pop_first_scalar(bytes) =~= rest) by {
            assert(length_of_first_scalar(bytes) == 1);
        }
        lemma_ascii_utf8(rest);
        let b0 = bytes[0];
        assert(b0 < 128);
        assert(decode_first_scalar(bytes) == b0 as u32) by {
            assert(b0 < 128 ==> (b0 & 0x7f) as u32 == b0 as u32) by (bit_vector);
        }
        let c0 = (b0 as u32) as char;
        assert(c0 as u32 == b0 as u32);
        let d = decode_utf8(bytes);
        assert(d =~= seq![c0] + decode_utf8(rest));
        assert forall|i: int| 0 <= i < bytes.len() implies d[i] as u32 == bytes[i] as u32 by {
            if i > 0 {
                assert(d[i] == decode_utf8(rest)[i - 1]);
                assert(bytes[i] == rest[i - 1]);
            }
        }
    }
}

/// ASCII bytes decode to the characters of the same numbers, and those characters encode back to the bytes.
pub proof fn lemma_ascii_text(bytes: Seq<u8>)
    requires
        all_ascii(bytes),
    ensures
        valid_utf8(bytes),
        decode_utf8(bytes) == ascii_chars(bytes),
        encode_utf8(ascii_chars(bytes)) == bytes,
{
    lemma_ascii_utf8(bytes);
    let d = decode_utf8(bytes);
    assert forall|i: int| 0 <= i < bytes.len() implies d[i] == ascii_chars(bytes)[i] by {
        vstd::utf8::char_u32_cast(d[i], bytes[i] as u32);
    }
    assert(d =~= ascii_chars(bytes));
    vstd::utf8::decode_utf8_encode_utf8(bytes);
}

/// Every character is ASCII.
pub open spec fn all_ascii_chars(s: Seq<char>) -> bool {
    forall|i: int| 0 <= i < s.len() ==> (s[i] as u32) < 128
}

/// ASCII characters take one byte each in UTF-8.
pub proof fn lemma_ascii_chars_utf8_len(s: Seq<char>)
    requires
        all_ascii_chars(s),
    ensures
        encode_utf8(s).len() == s.len(),
{
    let b: Seq<u8> = Seq::new(s.len(), |i: int| (s[i] as u32) as u8);
    assert forall|i: int| 0 <= i < b.len() implies b[i] < 128 by {
        assert((s[i] as u32) < 128);
    }
    assert forall|i: int| 0 <= i < s.len() implies ascii_chars(b)[i] == s[i] by {
        assert(b[i] as u32 == s[i] as u32);
        vstd::utf8::char_u32_cast(s[i], b[i] as u32);
    }
    assert(ascii_chars(b) =~= s);
    lemma_ascii_text(b);
}

/// A `String` holding the given ASCII bytes.
pub fn ascii_to_string(bytes: &[u8]) -> (r: String)
    requires
        all_ascii(bytes@),
    ensures
        encode_utf8(r@) == bytes@,
        r@.len() == bytes@.len(),
        forall|i: int| 0 <= i < bytes@.len() ==> r@[i] as u32 == bytes@[i] as u32,
        r@ == ascii_chars(bytes@),
{
    proof { lemma_ascii_utf8(bytes@); }
    match utf8_to_str(bytes) {
        Some(s) => {
            proof { vstd::utf8::encode_utf8_decode_utf8(s@); }
            let r = s.to_owned();
            proof {
                assert forall|i: int| 0 <= i < bytes@.len() implies r@[i] == ascii_chars(bytes@)[i] by {
                    vstd::utf8::char_u32_cast(r@[i], bytes@[i] as u32);
                }
                assert(r@ =~= ascii_chars(bytes@));
            }
            r
        },
        None => {
            proof { assert(false); }
            String::new()
        },
    }
}

} // verus!
