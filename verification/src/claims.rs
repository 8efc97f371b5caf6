use vstd::prelude::*;
use crate::decimal::{
    decimal_bytes, signed_decimal_bytes, is_digit, scan_digits, IntErrorKind, push_decimal,
    push_signed_decimal, lemma_decimal_bytes_shape, lemma_scan_decimal,
};

verus! {

/// The bytes `{"exp":` that open the claims of a token.
pub open spec fn exp_key() -> Seq<u8> {
    seq![123u8, 34u8, 101u8, 120u8, 112u8, 34u8, 58u8]
}

/// The bytes `,"user_id":` between the two claims of a token.
pub open spec fn user_id_key() -> Seq<u8> {
    seq![44u8, 34u8, 117u8, 115u8, 101u8, 114u8, 95u8, 105u8, 100u8, 34u8, 58u8]
}

/// The JSON text of the claims of a token: `{"exp":<exp>,"user_id":<user_id>}`,
/// numbers in decimal without leading zeros, as serde_json writes them.
pub open spec fn claims_bytes(exp: u64, user_id: i32) -> Seq<u8> {
    exp_key() + decimal_bytes(exp as nat) + user_id_key() + signed_decimal_bytes(user_id as int) + seq![125u8]
}

/// Appends `bytes` to `out`.
fn push_all(out: &mut Vec<u8>, bytes: &[u8])
    ensures
        final(out)@ == old(out)@ + bytes@,
{
    let n: usize = bytes.len();
    let mut i: usize = 0;
    while i < n
        invariant
            n == bytes@.len(),
            i <= n,
            out@ == old(out)@ + bytes@.subrange(0, i as int),
        decreases n - i,
    {
        out.push(bytes[i]);
        i = i + 1;
        assert(out@ =~= old(out)@ + bytes@.subrange(0, i as int));
    }
    assert(bytes@.subrange(0, n as int) =~= bytes@);
}

/// The JSON bytes of the claims `exp` and `user_id`.
pub fn write_claims(exp: u64, user_id: i32) -> (r: Vec<u8>)
    ensures
        r@ == claims_bytes(exp, user_id),
{
    let k1: [u8; 7] = [123u8, 34u8, 101u8, 120u8, 112u8, 34u8, 58u8];
    let k2: [u8; 11] = [44u8, 34u8, 117u8, 115u8, 101u8, 114u8, 95u8, 105u8, 100u8, 34u8, 58u8];
    assert(k1@ =~= exp_key());
    assert(k2@ =~= user_id_key());
    let mut out: Vec<u8> = Vec::new();
    push_all(&mut out, k1.as_slice());
    push_decimal(&mut out, exp);
    push_all(&mut out, k2.as_slice());
    push_signed_decimal(&mut out, user_id as i64);
    out.push(125u8);
    assert(out@ =~= claims_bytes(exp, user_id));
    out
}

/// The bytes of `a` and `b` are the same.
fn bytes_equal(a: &[u8], b: &[u8]) -> (r: bool)
    ensures
        r == (a@ == b@),
{
    if a.len() != b.len() {
        return false;
    }
    let n: usize = a.len();
    let mut i: usize = 0;
    while i < n
        invariant
            n == a@.len(),
            n == b@.len(),
            i <= n,
            forall|j: int| 0 <= j < i ==> a@[j] == b@[j],
        decreases n - i,
    {
        if a[i] != b[i] {
            return false;
        }
        i = i + 1;
    }
    assert(a@ =~= b@);
    true
}

/// The end of the run of digits that starts at `start`.
fn digit_run_end(bytes: &[u8], start: usize) -> (end: usize)
    requires
        start <= bytes@.len(),
    ensures
        start <= end <= bytes@.len(),
        forall|j: int| start <= j < end ==> is_digit(#[trigger] bytes@[j]),
        end == bytes@.len() || !is_digit(bytes@[end as int]),
{
    let n: usize = bytes.len();
    let mut i: usize = start;
    while i < n && bytes[i] >= 48 && bytes[i] <= 57
        invariant
            n == bytes@.len(),
            start <= i <= n,
            forall|j: int| start <= j < i ==> is_digit(#[trigger] bytes@[j]),
        decreases n - i,
    {
        i = i + 1;
    }
    i
}

/// A run of digits followed by a non-digit is found exactly.
proof fn lemma_run_end_unique(bytes: Seq<u8>, start: int, k: int, end: int)
    requires
        0 <= start <= start + k <= bytes.len(),
        forall|j: int| start <= j < start + k ==> is_digit(#[trigger] bytes[j]),
        start + k == bytes.len() || !is_digit(bytes[start + k]),
        start <= end <= bytes.len(),
        forall|j: int| start <= j < end ==> is_digit(#[trigger] bytes[j]),
        end == bytes.len() || !is_digit(bytes[end]),
    ensures
        end == start + k,
{
    if end < start + k {
        assert(is_digit(bytes[end]));
    } else if end > start + k {
        assert(is_digit(bytes[start + k]));
    }
}

/// Reads `digits` (all digits, at least one) as a number no larger than `max`.
fn digits_value(digits: &[u8], max: u64) -> (r: Option<u64>)
    ensures
        match scan_digits(digits@, max as nat) {
            Ok(v) => r == Some(v as u64),
            Err(_) => r is None,
        },
{
    proof { assert(digits@.subrange(0, digits@.len() as int) =~= digits@); }
    match crate::decimal::scan_digits_exec(digits, 0, max) {
        Ok(v) => Some(v),
        Err(_) => None,
    }
}

/// The magnitude of a user id and the largest magnitude its sign allows.
pub open spec fn magnitude(u: i32) -> nat {
    if u < 0 { (-(u as int)) as nat } else { u as nat }
}

pub open spec fn magnitude_max(u: i32) -> nat {
    if u < 0 { 2147483648 } else { 2147483647 }
}

/// Where the parts of the claims text stand.
proof fn lemma_claims_layout(e: u64, u: i32)
    ensures ({
        let s = claims_bytes(e, u);
        let k = decimal_bytes(e as nat).len() as int;
        let p = 7 + k + 11;
        let ds = if u < 0 { p + 1 } else { p };
        let km = decimal_bytes(magnitude(u)).len() as int;
        &&& k >= 1
        &&& km >= 1
        &&& s.len() == ds + km + 1
        &&& s.subrange(0, 7) == exp_key()
        &&& forall|j: int| 7 <= j < 7 + k ==> is_digit(#[trigger] s[j])
        &&& !is_digit(s[7 + k])
        &&& s.subrange(7, 7 + k) == decimal_bytes(e as nat)
        &&& s.subrange(7 + k, p) == user_id_key()
        &&& (s[p] == 45u8 <==> u < 0)
        &&& forall|j: int| ds <= j < ds + km ==> is_digit(#[trigger] s[j])
        &&& s[ds + km] == 125u8
        &&& !is_digit(s[ds + km])
        &&& s.subrange(ds, ds + km) == decimal_bytes(magnitude(u))
        &&& scan_digits(decimal_bytes(e as nat), u64::MAX as nat) == Ok::<nat, IntErrorKind>(e as nat)
        &&& scan_digits(decimal_bytes(magnitude(u)), magnitude_max(u)) == Ok::<nat, IntErrorKind>(magnitude(u))
    }),
{
    let s = claims_bytes(e, u);
    let a = exp_key();
    let b = decimal_bytes(e as nat);
    let c = user_id_key();
    let d = signed_decimal_bytes(u as int);
    let f = seq![125u8];
    let k = b.len() as int;
    let p = 7 + k + 11;
    let m = magnitude(u);
    let dm = decimal_bytes(m);
    let km = dm.len() as int;
    let ds = if u < 0 { p + 1 } else { p };
    lemma_decimal_bytes_shape(e as nat);
    lemma_decimal_bytes_shape(m);
    lemma_scan_decimal(e as nat, u64::MAX as nat);
    lemma_scan_decimal(m, magnitude_max(u));
    assert(s =~= a + b + c + d + f);
    if u < 0 {
        assert(d =~= seq![45u8] + dm);
    } else {
        assert(d =~= dm);
    }
    assert(s.subrange(0, 7) =~= a);
    assert(s.subrange(7, 7 + k) =~= b);
    assert(s.subrange(7 + k, p) =~= c);
    assert(s.subrange(ds, ds + km) =~= dm);
    assert forall|j: int| 7 <= j < 7 + k implies is_digit(#[trigger] s[j]) by {
        assert(s[j] == b[j - 7]);
    }
    assert forall|j: int| ds <= j < ds + km implies is_digit(#[trigger] s[j]) by {
        assert(s[j] == dm[j - ds]);
    }
    if u >= 0 {
        assert(s[p] == dm[0]);
        assert(is_digit(dm[0]));
    }
}

/// Two claims texts are the same only for the same claims.
pub proof fn lemma_claims_injective(e1: u64, u1: i32, e2: u64, u2: i32)
    requires
        claims_bytes(e1, u1) == claims_bytes(e2, u2),
    ensures
        e1 == e2,
        u1 == u2,
{
    lemma_claims_layout(e1, u1);
    lemma_claims_layout(e2, u2);
    let s = claims_bytes(e1, u1);
    let k1 = decimal_bytes(e1 as nat).len() as int;
    let k2 = decimal_bytes(e2 as nat).len() as int;
    lemma_run_end_unique(s, 7, k1, 7 + k2);
    let p = 7 + k1 + 11;
    let ds1 = if u1 < 0 { p + 1 } else { p };
    let km1 = decimal_bytes(magnitude(u1)).len() as int;
    let km2 = decimal_bytes(magnitude(u2)).len() as int;
    assert((u1 < 0) == (u2 < 0));
    lemma_run_end_unique(s, ds1, km1, ds1 + km2);
    assert(magnitude(u1) == magnitude(u2));
}

/// Reads claims written by `write_claims`; any other text gives `None`.
pub fn read_claims(bytes: &[u8]) -> (r: Option<(u64, i32)>)
    ensures
        r matches Some((e, u)) ==> bytes@ == claims_bytes(e, u),
        forall|e: u64, u: i32| bytes@ == claims_bytes(e, u) ==> r == Some((e, u)),
{
    let ghost canon: bool = exists|e2: u64, u2: i32| bytes@ == claims_bytes(e2, u2);
    let ghost w: (u64, i32) = choose|e2: u64, u2: i32| bytes@ == claims_bytes(e2, u2);
    let ghost k: int = decimal_bytes(w.0 as nat).len() as int;
    let ghost km: int = decimal_bytes(magnitude(w.1)).len() as int;
    proof {
        if canon {
            lemma_claims_layout(w.0, w.1);
        }
        assert forall|e2: u64, u2: i32| bytes@ == claims_bytes(e2, u2) implies canon && (e2, u2) == w by {
            assert(canon);
            lemma_claims_injective(e2, u2, w.0, w.1);
        }
    }
    let n: usize = bytes.len();
    let k1: [u8; 7] = [123u8, 34u8, 101u8, 120u8, 112u8, 34u8, 58u8];
    let k2: [u8; 11] = [44u8, 34u8, 117u8, 115u8, 101u8, 114u8, 95u8, 105u8, 100u8, 34u8, 58u8];
    assert(k1@ =~= exp_key());
    assert(k2@ =~= user_id_key());
    if n < 7 {
        return None;
    }
    if !bytes_equal(vstd::slice::slice_subrange(bytes, 0, 7), k1.as_slice()) {
        return None;
    }
    let e_end: usize = digit_run_end(bytes, 7);
    proof {
        if canon {
            lemma_run_end_unique(bytes@, 7, k, e_end as int);
        }
    }
    if e_end == 7 || n - e_end < 11 {
        return None;
    }
    let e_opt: Option<u64> = digits_value(vstd::slice::slice_subrange(bytes, 7, e_end), u64::MAX);
    let e: u64 = match e_opt {
        Some(v) => v,
        None => { return None; },
    };
    if !bytes_equal(vstd::slice::slice_subrange(bytes, e_end, e_end + 11), k2.as_slice()) {
        return None;
    }
    let p: usize = e_end + 11;
    if p >= n {
        return None;
    }
    let neg: bool = bytes[p] == 45u8;
    let ds: usize = if neg { p + 1 } else { p };
    if ds > n {
        return None;
    }
    let u_end: usize = digit_run_end(bytes, ds);
    proof {
        if canon {
            lemma_run_end_unique(bytes@, ds as int, km, u_end as int);
        }
    }
    if u_end == ds || u_end >= n {
        return None;
    }
    let max_mag: u64 = if neg { 2147483648u64 } else { 2147483647u64 };
    let m: u64 = match digits_value(vstd::slice::slice_subrange(bytes, ds, u_end), max_mag) {
        Some(v) => v,
        None => { return None; },
    };
    let u: i32 = if neg { (0i64 - (m as i64)) as i32 } else { m as i32 };
    proof {
        if canon {
            assert(e == w.0);
            assert(m == magnitude(w.1));
            assert(u == w.1);
        }
    }
    let again: Vec<u8> = write_claims(e, u);
    if bytes_equal(bytes, again.as_slice()) {
        Some((e, u))
    } else {
        None
    }
}

} // verus!
