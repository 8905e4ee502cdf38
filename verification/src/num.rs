//! Base-10 parsing of unsigned 64-bit values.
//!
//! A captured slice is a valid count (status code, content length) when
//! it consists of an optional `+` sign followed by one or more decimal
//! digits and its value fits in 64 bits — the same inputs the standard
//! unsigned parse accepts.

use vstd::prelude::*;

verus! {

/// Decimal digit test.
pub open spec fn is_digit_char(c: char) -> bool {
    ('0' as u32) <= (c as u32) && (c as u32) <= ('9' as u32)
}

/// Numeric value of one decimal digit.
pub open spec fn digit_val(c: char) -> int {
    (c as u32) as int - ('0' as u32) as int
}

/// Every character of `s` is a decimal digit.
pub open spec fn all_digits(s: Seq<char>) -> bool {
    forall|i: int| 0 <= i < s.len() ==> is_digit_char(s[i])
}

/// Value of a digit string read most-significant first.
pub open spec fn digits_val(s: Seq<char>) -> int
    decreases s.len(),
{
    if s.len() == 0 {
        0
    } else {
        digits_val(s.drop_last()) * 10 + digit_val(s.last())
    }
}

/// The digit portion of a numeric slice: a single leading `+` is
/// accepted and ignored.
pub open spec fn unsigned_digits(s: Seq<char>) -> Seq<char> {
    if s.len() >= 1 && s[0] == '+' {
        s.subrange(1, s.len() as int)
    } else {
        s
    }
}

/// What the slice `s` parses to as an unsigned 64-bit value: defined
/// exactly when the digit portion is non-empty, all digits, and the
/// value fits.
pub open spec fn parse_u64_model(s: Seq<char>) -> Option<u64> {
    let d = unsigned_digits(s);
    if d.len() >= 1 && all_digits(d) && digits_val(d) <= u64::MAX {
        Some(digits_val(d) as u64)
    } else {
        None
    }
}

pub proof fn lemma_digits_val_nonneg(s: Seq<char>)
    requires
        all_digits(s),
    ensures
        digits_val(s) >= 0,
    decreases s.len(),
{
    if s.len() > 0 {
        assert(all_digits(s.drop_last())) by {
            assert(forall|i: int|
                0 <= i < s.len() - 1 ==> s.drop_last()[i] == s[i] && is_digit_char(s[i]));
        }
        lemma_digits_val_nonneg(s.drop_last());
    }
}

/// Extending a digit string on the right can only grow its value.
pub proof fn lemma_digits_val_prefix_le(s: Seq<char>, k: int)
    requires
        all_digits(s),
        0 <= k <= s.len(),
    ensures
        digits_val(s.subrange(0, k)) <= digits_val(s),
    decreases s.len() - k,
{
    if k < s.len() {
        let t = s.subrange(0, k + 1);
        assert(t.drop_last() =~= s.subrange(0, k));
        assert(all_digits(t));
        lemma_digits_val_nonneg(t.drop_last());
        assert(digits_val(t) == digits_val(s.subrange(0, k)) * 10 + digit_val(t.last()));
        assert(digits_val(s.subrange(0, k)) <= digits_val(t));
        lemma_digits_val_prefix_le(s, k + 1);
        assert(s.subrange(0, s.len() as int) =~= s);
    } else {
        assert(s.subrange(0, k) =~= s);
    }
}

/// Executable base-10 unsigned parse, proved equal to
/// `parse_u64_model`.
pub fn parse_u64(s: &str) -> (r: Option<u64>)
    ensures
        r == parse_u64_model(s@),
{
    let n = s.unicode_len();
    let start: usize = if n >= 1 && s.get_char(0) == '+' {
        1
    } else {
        0
    };
    let ghost d = unsigned_digits(s@);
    proof {
        assert(d =~= s@.subrange(start as int, n as int));
    }
    if start == n {
        return None;
    }
    let mut v: u64 = 0;
    let mut i = start;
    while i < n
        invariant
            start <= i <= n,
            n == s@.len(),
            start < n,
            d == unsigned_digits(s@),
            d =~= s@.subrange(start as int, n as int),
            all_digits(s@.subrange(start as int, i as int)),
            v == digits_val(s@.subrange(start as int, i as int)),
        decreases n - i,
    {
        let c = s.get_char(i);
        let cv = c as u32;
        if cv < '0' as u32 || cv > '9' as u32 {
            proof {
                assert(d[i - start] == s@[i as int]);
                assert(!is_digit_char(d[i - start]));
                assert(!all_digits(d));
            }
            return None;
        }
        let dv = (cv - '0' as u32) as u64;
        let ghost p = s@.subrange(start as int, i as int);
        let ghost q = s@.subrange(start as int, i + 1);
        proof {
            assert(q.drop_last() =~= p);
            assert(q.last() == s@[i as int]);
            assert(digits_val(q) == digits_val(p) * 10 + digit_val(s@[i as int]));
            assert forall|j: int| 0 <= j < q.len() implies is_digit_char(q[j]) by {
                if j < q.len() - 1 {
                    assert(q[j] == p[j]);
                } else {
                    assert(q[j] == s@[i as int]);
                }
            }
        }
        if v > (u64::MAX - dv) / 10 {
            proof {
                // the digits read so far already exceed u64::MAX, and any
                // further digits can only grow the value
                let m = (u64::MAX - dv) as int;
                assert(m == (m / 10) * 10 + m % 10);
                assert(digits_val(q) > u64::MAX);
                if all_digits(d) && digits_val(d) <= u64::MAX {
                    assert(q =~= d.subrange(0, i + 1 - start));
                    lemma_digits_val_prefix_le(d, i + 1 - start);
                    assert(false);
                }
            }
            return None;
        }
        proof {
            // no overflow: v * 10 + dv stays within u64::MAX
            let m = (u64::MAX - dv) as int;
            assert(m == (m / 10) * 10 + m % 10);
            assert((v as int) * 10 + dv <= u64::MAX);
        }
        v = v * 10 + dv;
        i = i + 1;
    }
    proof {
        assert(s@.subrange(start as int, i as int) =~= d);
        lemma_digits_val_nonneg(d);
    }
    Some(v)
}

} // verus!
