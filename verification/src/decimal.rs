use vstd::prelude::*;
use vstd::utf8::*;
use vstd::string::*;

verus! {

/// Why a decimal integer could not be read, as the standard library names it.
#[derive(Debug, Clone, Copy, PartialEq, Eq, Structural)]
pub enum IntErrorKind {
    /// The text is empty.
    Empty,
    /// The text holds something other than a digit (after an optional leading `+`).
    InvalidDigit,
    /// The value does not fit into the target type.
    PosOverflow,
    /// The value is zero where zero is not allowed.
    Zero,
}

/// The byte is an ASCII decimal digit.
pub open spec fn is_digit(b: u8) -> bool {
    48 <= b <= 57
}

/// Reads `digits` from left to right, as the standard library does: the first
/// byte that is not a digit, or the first digit after which the value passes
/// `max`, decides the error.
pub open spec fn scan_digits(digits: Seq<u8>, max: nat) -> Result<nat, IntErrorKind>
    decreases digits.len(),
{
    if digits.len() == 0 {
        Ok(0)
    } else {
        match scan_digits(digits.drop_last(), max) {
            Err(e) => Err(e),
            Ok(v) => {
                let b = digits.last();
                if !is_digit(b) {
                    Err(IntErrorKind::InvalidDigit)
                } else if v * 10 + (b - 48) > max {
                    Err(IntErrorKind::PosOverflow)
                } else {
                    Ok((v * 10 + (b - 48)) as nat)
                }
            }
        }
    }
}

/// The unsigned integer that `text` spells in decimal, with the rules of the
/// standard library's `from_str` for unsigned types: an optional leading `+`,
/// then at least one digit, and nothing else.
pub open spec fn parse_unsigned(text: Seq<u8>, max: nat) -> Result<nat, IntErrorKind> {
    if text.len() == 0 {
        Err(IntErrorKind::Empty)
    } else if (text[0] == 43u8 || text[0] == 45u8) && text.len() == 1 {
        Err(IntErrorKind::InvalidDigit)
    } else if text[0] == 43u8 {
        scan_digits(text.drop_first(), max)
    } else {
        scan_digits(text, max)
    }
}

/// Like `parse_unsigned`, but zero is refused as for a non-zero type.
pub open spec fn parse_nonzero(text: Seq<u8>, max: nat) -> Result<nat, IntErrorKind> {
    match parse_unsigned(text, max) {
        Ok(v) => if v == 0 { Err(IntErrorKind::Zero) } else { Ok(v) },
        Err(e) => Err(e),
    }
}

proof fn lemma_step_bound(v: u64, d: u64, max: u64)
    requires
        d <= 9,
        d <= max,
    ensures
        (v * 10 + d <= max) <==> (v <= (max - d) / 10),
{
    assert((v * 10 + d <= max) <==> (v <= (max - d) / 10)) by (nonlinear_arith)
        requires d <= max;
}

/// Reads the digits `digits[start..]` with the scan of `scan_digits`, for values up to `max`.
pub(crate) fn scan_digits_exec(digits: &[u8], start: usize, max: u64) -> (r: Result<u64, IntErrorKind>)
    requires
        start <= digits@.len(),
    ensures
        match scan_digits(digits@.subrange(start as int, digits@.len() as int), max as nat) {
            Ok(v) => r == Ok::<u64, IntErrorKind>(v as u64),
            Err(e) => r == Err::<u64, IntErrorKind>(e),
        },
{
    let n: usize = digits.len();
    let mut i: usize = start;
    let mut acc: u64 = 0;
    while i < n
        invariant
            n == digits@.len(),
            start <= i <= n,
            acc <= max,
            scan_digits(digits@.subrange(start as int, i as int), max as nat) == Ok::<nat, IntErrorKind>(acc as nat),
        decreases n - i,
    {
        let b: u8 = digits[i];
        let ghost prefix = digits@.subrange(start as int, i as int + 1);
        assert(prefix.drop_last() =~= digits@.subrange(start as int, i as int));
        assert(prefix.last() == b);
        if b < 48 || b > 57 {
            proof {
                assert(digits@.subrange(start as int, n as int).subrange(0, (i - start) as int + 1) =~= prefix);
                lemma_scan_error_sticks(digits@.subrange(start as int, n as int), (i - start) as int + 1, max as nat);
            }
            return Err(IntErrorKind::InvalidDigit);
        }
        let d: u64 = (b - 48) as u64;
        if d > max || acc > (max - d) / 10 {
            proof {
                if d <= max {
                    lemma_step_bound(acc, d, max);
                }
                assert(scan_digits(prefix, max as nat) == Err::<nat, IntErrorKind>(IntErrorKind::PosOverflow));
                assert(digits@.subrange(start as int, n as int).subrange(0, (i - start) as int + 1) =~= prefix);
                lemma_scan_error_sticks(digits@.subrange(start as int, n as int), (i - start) as int + 1, max as nat);
            }
            return Err(IntErrorKind::PosOverflow);
        }
        proof { lemma_step_bound(acc, d, max); }
        acc = acc * 10 + d;
        i = i + 1;
    }
    r_ok(acc)
}

#[inline]
fn r_ok(v: u64) -> (r: Result<u64, IntErrorKind>)
    ensures r == Ok::<u64, IntErrorKind>(v),
{
    Ok(v)
}

/// Once the scan of a prefix fails, the scan of the whole fails the same way.
proof fn lemma_scan_error_sticks(digits: Seq<u8>, k: int, max: nat)
    requires
        0 <= k <= digits.len(),
        scan_digits(digits.subrange(0, k), max) is Err,
    ensures
        scan_digits(digits, max) == scan_digits(digits.subrange(0, k), max),
    decreases digits.len() - k,
{
    if k == digits.len() {
        assert(digits.subrange(0, k) =~= digits);
    } else {
        let p = digits.subrange(0, k + 1);
        assert(p.drop_last() =~= digits.subrange(0, k));
        assert(scan_digits(p, max) == scan_digits(digits.subrange(0, k), max));
        lemma_scan_error_sticks(digits, k + 1, max);
    }
}

/// Reads an unsigned decimal integer no larger than `max`, with the rules of `parse_unsigned`.
pub fn parse_unsigned_exec(text: &str, max: u64) -> (r: Result<u64, IntErrorKind>)
    ensures
        match parse_unsigned(text.spec_bytes(), max as nat) {
            Ok(v) => r == Ok::<u64, IntErrorKind>(v as u64),
            Err(e) => r == Err::<u64, IntErrorKind>(e),
        },
{
    let bytes: &[u8] = text.as_bytes();
    let n: usize = bytes.len();
    if n == 0 {
        return Err(IntErrorKind::Empty);
    }
    let first: u8 = bytes[0];
    if (first == 43 || first == 45) && n == 1 {
        return Err(IntErrorKind::InvalidDigit);
    }
    if first == 43 {
        assert(bytes@.subrange(1, n as int) =~= bytes@.drop_first());
        scan_digits_exec(bytes, 1, max)
    } else {
        assert(bytes@.subrange(0, n as int) =~= bytes@);
        scan_digits_exec(bytes, 0, max)
    }
}

/// Reads a non-zero unsigned decimal integer no larger than `max`, with the rules of `parse_nonzero`.
pub fn parse_nonzero_exec(text: &str, max: u64) -> (r: Result<u64, IntErrorKind>)
    ensures
        match parse_nonzero(text.spec_bytes(), max as nat) {
            Ok(v) => r == Ok::<u64, IntErrorKind>(v as u64),
            Err(e) => r == Err::<u64, IntErrorKind>(e),
        },
{
    match parse_unsigned_exec(text, max) {
        Ok(v) => if v == 0 { Err(IntErrorKind::Zero) } else { Ok(v) },
        Err(e) => Err(e),
    }
}

/// The decimal digits of `n`, most significant first, without sign or leading zeros.
pub open spec fn decimal_bytes(n: nat) -> Seq<u8>
    decreases n,
{
    if n < 10 {
        seq![(48 + n) as u8]
    } else {
        decimal_bytes(n / 10).push((48 + n % 10) as u8)
    }
}

/// The decimal text of a signed number: a `-` before the digits of its magnitude when negative.
pub open spec fn signed_decimal_bytes(v: int) -> Seq<u8> {
    if v < 0 {
        seq![45u8] + decimal_bytes((-v) as nat)
    } else {
        decimal_bytes(v as nat)
    }
}

/// Facts about the digits of `n`: they are digits, there is at least one, and the first is no `+` or `-`.
pub proof fn lemma_decimal_bytes_shape(n: nat)
    ensures
        decimal_bytes(n).len() >= 1,
        forall|i: int| 0 <= i < decimal_bytes(n).len() ==> is_digit(#[trigger] decimal_bytes(n)[i]),
    decreases n,
{
    if n >= 10 {
        lemma_decimal_bytes_shape(n / 10);
        let p = decimal_bytes(n / 10);
        assert forall|i: int| 0 <= i < decimal_bytes(n).len() implies is_digit(#[trigger] decimal_bytes(n)[i]) by {
            if i < p.len() {
                assert(decimal_bytes(n)[i] == p[i]);
            }
        }
    }
}

/// Reading the digits of `n` gives `n` back, whenever `n` fits under `max`.
pub proof fn lemma_scan_decimal(n: nat, max: nat)
    requires
        n <= max,
    ensures
        scan_digits(decimal_bytes(n), max) == Ok::<nat, IntErrorKind>(n),
    decreases n,
{
    if n < 10 {
        assert(decimal_bytes(n).drop_last() =~= Seq::<u8>::empty());
        assert(scan_digits(Seq::<u8>::empty(), max) == Ok::<nat, IntErrorKind>(0));
    } else {
        assert((n / 10) * 10 + n % 10 == n) by (nonlinear_arith);
        assert(n % 10 < 10) by (nonlinear_arith);
        assert(n / 10 <= n) by (nonlinear_arith);
        lemma_scan_decimal(n / 10, max);
        assert(decimal_bytes(n).drop_last() =~= decimal_bytes(n / 10));
        let b = (48 + n % 10) as u8;
        assert(decimal_bytes(n).last() == b);
        assert(b - 48 == n % 10);
    }
}

/// Writing a number in decimal and reading it back gives the number.
pub proof fn lemma_parse_decimal_roundtrip(n: nat, max: nat)
    requires
        n <= max,
    ensures
        parse_unsigned(decimal_bytes(n), max) == Ok::<nat, IntErrorKind>(n),
        n != 0 ==> parse_nonzero(decimal_bytes(n), max) == Ok::<nat, IntErrorKind>(n),
{
    lemma_decimal_bytes_shape(n);
    lemma_scan_decimal(n, max);
    assert(is_digit(decimal_bytes(n)[0]));
}

/// Appends the decimal digits of `n` to `out`.
pub fn push_decimal(out: &mut Vec<u8>, n: u64)
    ensures
        final(out)@ == old(out)@ + decimal_bytes(n as nat),
    decreases n,
{
    if n < 10 {
        out.push((48 + n) as u8);
    } else {
        push_decimal(out, n / 10);
        out.push((48 + n % 10) as u8);
        assert(old(out)@ + decimal_bytes(n as nat) =~= old(out)@ + decimal_bytes((n / 10) as nat) + seq![(48 + n % 10) as u8]);
    }
}

/// Appends the decimal text of the signed `v` to `out`.
pub fn push_signed_decimal(out: &mut Vec<u8>, v: i64)
    ensures
        final(out)@ == old(out)@ + signed_decimal_bytes(v as int),
{
    if v < 0 {
        out.push(45u8);
        let m: u64 = if v == i64::MIN { 9223372036854775808u64 } else { (-v) as u64 };
        push_decimal(out, m);
        assert(old(out)@ + signed_decimal_bytes(v as int) =~= old(out)@ + seq![45u8] + decimal_bytes(m as nat));
    } else {
        push_decimal(out, v as u64);
    }
}

} // verus!
