//! Decimal digit strings: what a run of ASCII digits denotes, and a
//! verified reader for it.

use vstd::prelude::*;

verus! {

/// An ASCII decimal digit.
pub open spec fn is_digit(b: u8) -> bool {
    48 <= b <= 57
}

/// Every byte of the string is an ASCII digit.
pub open spec fn all_digits(s: Seq<u8>) -> bool {
    forall|i: int| 0 <= i < s.len() ==> is_digit(#[trigger] s[i])
}

/// The number a digit string denotes, most significant digit first.
pub open spec fn digits_val(s: Seq<u8>) -> int
    decreases s.len(),
{
    if s.len() == 0 {
        0
    } else {
        digits_val(s.drop_last()) * 10 + (s.last() - 48)
    }
}

pub open spec fn pow10(n: nat) -> int
    decreases n,
{
    if n == 0 {
        1
    } else {
        10 * pow10((n - 1) as nat)
    }
}

/// The concrete powers of ten that two- and four-digit fields need.
pub proof fn lemma_pow10_small()
    ensures
        pow10(2) == 100,
        pow10(4) == 10000,
{
    reveal_with_fuel(pow10, 5);
}

/// A digit string denotes a value within [0, 10^len).
pub proof fn lemma_digits_val_bound(s: Seq<u8>)
    requires
        all_digits(s),
    ensures
        0 <= digits_val(s) < pow10(s.len()),
    decreases s.len(),
{
    if s.len() > 0 {
        lemma_digits_val_bound(s.drop_last());
    }
}

/// Extending a digit string to the right never lowers its value.
pub proof fn lemma_digits_val_prefix_le(s: Seq<u8>, k: int)
    requires
        all_digits(s),
        0 <= k <= s.len(),
    ensures
        digits_val(s.subrange(0, k)) <= digits_val(s),
    decreases s.len() - k,
{
    if k < s.len() {
        lemma_digits_val_prefix_le(s, k + 1);
        let t = s.subrange(0, k + 1);
        assert(t.drop_last() =~= s.subrange(0, k));
        lemma_digits_val_bound(s.subrange(0, k));
        assert(digits_val(s.subrange(0, k)) <= digits_val(t));
    } else {
        assert(s.subrange(0, k) =~= s);
    }
}

/// The decimal digit string of a nonnegative number, most significant
/// digit first.
pub open spec fn dec_rep(n: int) -> Seq<u8>
    recommends
        n >= 0,
    decreases n,
{
    if n < 10 {
        seq![(n + 48) as u8]
    } else {
        dec_rep(n / 10).push((n % 10 + 48) as u8)
    }
}

/// Reads the digit string `v[start..end]` as a number. Returns `None` when
/// the range is empty, holds a non-digit byte, or denotes a value above
/// `u32::MAX`.
pub fn parse_digits(v: &Vec<u8>, start: usize, end: usize) -> (r: Option<u32>)
    requires
        start <= end <= v@.len(),
    ensures
        ({
            let s = v@.subrange(start as int, end as int);
            match r {
                Some(n) => start < end && all_digits(s) && digits_val(s) <= u32::MAX
                    && n == digits_val(s),
                None => !(start < end && all_digits(s) && digits_val(s) <= u32::MAX),
            }
        }),
{
    if start == end {
        return None;
    }
    let ghost s = v@.subrange(start as int, end as int);
    let mut acc: u32 = 0;
    let mut i: usize = start;
    while i < end
        invariant
            start <= i <= end <= v@.len(),
            s == v@.subrange(start as int, end as int),
            all_digits(s.subrange(0, i - start)),
            acc == digits_val(s.subrange(0, i - start)),
        decreases end - i,
    {
        let b = v[i];
        if b < 48 || 57 < b {
            proof {
                assert(s[i - start] == b);
            }
            return None;
        }
        let d = (b - 48) as u32;
        if acc > 429496729 || (acc == 429496729 && d > 5) {
            proof {
                let t = s.subrange(0, i - start + 1);
                assert(t.drop_last() =~= s.subrange(0, i - start));
                assert(t.last() == b);
                assert(digits_val(t) == acc * 10 + d);
                assert(digits_val(t) > u32::MAX);
                assert(all_digits(s) ==> digits_val(s) > u32::MAX) by {
                    if all_digits(s) {
                        lemma_digits_val_prefix_le(s, i - start + 1);
                    }
                }
            }
            return None;
        }
        proof {
            let t = s.subrange(0, i - start + 1);
            assert(t.drop_last() =~= s.subrange(0, i - start));
            assert(t.last() == b);
        }
        acc = acc * 10 + d;
        i = i + 1;
    }
    proof {
        assert(s.subrange(0, i - start) =~= s);
    }
    Some(acc)
}

} // verus!
