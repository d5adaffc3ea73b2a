//! Decimal parsing of unsigned integers, with the grammar that
//! `u64::from_str_radix(s, 10)` accepts: an optional `+` followed by one or
//! more ASCII digits whose value fits the target type.

use vstd::prelude::*;

verus! {

/// The byte `b` is an ASCII decimal digit.
pub open spec fn is_digit(b: u8) -> bool {
    48 <= b && b <= 57
}

/// Every byte of `d` is an ASCII decimal digit.
pub open spec fn all_digits(d: Seq<u8>) -> bool {
    forall|i: int| 0 <= i < d.len() ==> #[trigger] is_digit(d[i])
}

/// The value of a string of decimal digits, most significant first.
pub open spec fn digits_value(d: Seq<u8>) -> nat
    decreases d.len(),
{
    if d.len() == 0 {
        0
    } else {
        digits_value(d.drop_last()) * 10 + (d.last() - 48) as nat
    }
}

/// The digits that follow an optional leading `+`.
pub open spec fn unsigned_digits(s: Seq<u8>) -> Seq<u8> {
    if s.len() > 0 && s[0] == 43 {
        s.drop_first()
    } else {
        s
    }
}

/// The value that radix-10 parsing gives for `s`, if it is at most `max`.
pub open spec fn parse_decimal_spec(s: Seq<u8>, max: nat) -> Option<nat> {
    let d = unsigned_digits(s);
    if d.len() > 0 && all_digits(d) && digits_value(d) <= max {
        Some(digits_value(d))
    } else {
        None
    }
}

/// Appending digits never makes the value smaller.
proof fn lemma_digits_value_prefix(d: Seq<u8>, k: int)
    requires
        0 <= k <= d.len(),
        all_digits(d),
    ensures
        digits_value(d.take(k)) <= digits_value(d),
    decreases d.len() - k,
{
    if k < d.len() {
        lemma_digits_value_prefix(d, k + 1);
        assert(d.take(k + 1).drop_last() =~= d.take(k));
    } else {
        assert(d.take(k) =~= d);
    }
}

/// Parses `s[lo..hi]` as a decimal `u64`, as `u64::from_str_radix(.., 10)` does.
pub(crate) fn parse_u64_range(s: &[u8], lo: usize, hi: usize) -> (r: Option<u64>)
    requires
        lo <= hi <= s@.len(),
    ensures
        r matches Some(v) ==> parse_decimal_spec(s@.subrange(lo as int, hi as int), u64::MAX as nat) == Some(v as nat),
        r is None ==> parse_decimal_spec(s@.subrange(lo as int, hi as int), u64::MAX as nat) is None,
{
    let ghost whole = s@.subrange(lo as int, hi as int);
    let mut start = lo;
    if lo < hi && s[lo] == 43u8 {
        start = lo + 1;
    }
    let ghost d = s@.subrange(start as int, hi as int);
    assert(d =~= unsigned_digits(whole));
    if start == hi {
        return None;
    }
    let mut value: u64 = 0;
    let mut i = start;
    while i < hi
        invariant
            lo <= start <= i <= hi <= s@.len(),
            d == s@.subrange(start as int, hi as int),
            whole == s@.subrange(lo as int, hi as int),
            d == unsigned_digits(whole),
            all_digits(d.take(i - start)),
            value as nat == digits_value(d.take(i - start)),
        decreases hi - i,
    {
        let b = s[i];
        if b < 48u8 || b > 57u8 {
            assert(!is_digit(d[i - start]));
            return None;
        }
        assert(d.take(i + 1 - start).drop_last() =~= d.take(i - start));
        assert(all_digits(d.take(i + 1 - start)));
        let digit = (b - 48u8) as u64;
        match value.checked_mul(10) {
            Some(m) => match m.checked_add(digit) {
                Some(n) => {
                    value = n;
                },
                None => {
                    proof {
                        lemma_overflow_is_final(d, i + 1 - start);
                    }
                    return None;
                },
            },
            None => {
                proof {
                    lemma_overflow_is_final(d, i + 1 - start);
                }
                return None;
            },
        }
        i = i + 1;
    }
    assert(d.take(hi - start) =~= d);
    Some(value)
}

/// Once a prefix of the digits exceeds `u64::MAX`, the whole string does too
/// (or it holds a byte that is no digit).
proof fn lemma_overflow_is_final(d: Seq<u8>, k: int)
    requires
        0 < k <= d.len(),
        digits_value(d.take(k)) > u64::MAX as nat,
    ensures
        !(all_digits(d) && digits_value(d) <= u64::MAX as nat),
{
    if all_digits(d) {
        lemma_digits_value_prefix(d, k);
    }
}

/// Parses `s` as a decimal `u64`: `Some` exactly where
/// `u64::from_str_radix(s, 10)` returns `Ok`, with the same value.
pub fn parse_u64(s: &[u8]) -> (r: Option<u64>)
    ensures
        r matches Some(v) ==> parse_decimal_spec(s@, u64::MAX as nat) == Some(v as nat),
        r is None ==> parse_decimal_spec(s@, u64::MAX as nat) is None,
{
    assert(s@.subrange(0, s@.len() as int) =~= s@);
    parse_u64_range(s, 0, s.len())
}

/// Parses `s` as a decimal `u16`: `Some` exactly where
/// `u16::from_str_radix(s, 10)` returns `Ok`, with the same value.
pub fn parse_u16(s: &[u8]) -> (r: Option<u16>)
    ensures
        r matches Some(v) ==> parse_decimal_spec(s@, u16::MAX as nat) == Some(v as nat),
        r is None ==> parse_decimal_spec(s@, u16::MAX as nat) is None,
{
    match parse_u64(s) {
        Some(v) => {
            if v <= 65535u64 {
                Some(v as u16)
            } else {
                None
            }
        },
        None => None,
    }
}

} // verus!
