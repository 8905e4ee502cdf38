//! Character-level scanning over lines.
//!
//! The layout matcher works by walking a line character by character:
//! maximal runs of non-whitespace, runs of whitespace, and searches for a
//! single delimiter. Each executable scanner here is proved equal to a
//! directly-written specification function over the line's view.

use vstd::prelude::*;

verus! {

use vstd::string::StrSliceExecFns;

/// The whitespace characters recognised between fields: the ASCII
/// whitespace set (space, tab, line feed, vertical tab, form feed,
/// carriage return).
pub open spec fn is_ws_char(c: char) -> bool {
    c == ' ' || c == '\t' || c == '\n' || c == '\x0b' || c == '\x0c' || c == '\r'
}

/// Executable test for `is_ws_char`.
pub fn is_ws(c: char) -> (r: bool)
    ensures
        r == is_ws_char(c),
{
    c == ' ' || c == '\t' || c == '\n' || c == '\x0b' || c == '\x0c' || c == '\r'
}

/// First position at or after `i` holding whitespace or the end of the
/// line: the end of the maximal non-whitespace run starting at `i`.
pub open spec fn nonws_end(s: Seq<char>, i: int) -> int
    decreases s.len() - i,
{
    if i < 0 || i >= s.len() || is_ws_char(s[i]) {
        i
    } else {
        nonws_end(s, i + 1)
    }
}

/// First position at or after `i` holding non-whitespace or the end of
/// the line: the end of the whitespace run starting at `i`.
pub open spec fn ws_end(s: Seq<char>, i: int) -> int
    decreases s.len() - i,
{
    if i < 0 || i >= s.len() || !is_ws_char(s[i]) {
        i
    } else {
        ws_end(s, i + 1)
    }
}

/// First position at or after `i` holding exactly the character `c`, if
/// any.
pub open spec fn find_from(s: Seq<char>, i: int, c: char) -> Option<int>
    decreases s.len() - i,
{
    if i < 0 || i >= s.len() {
        None
    } else if s[i] == c {
        Some(i)
    } else {
        find_from(s, i + 1, c)
    }
}

/// Executable scan to the end of the non-whitespace run starting at
/// `from`.
pub fn scan_non_ws(s: &str, from: usize) -> (r: usize)
    requires
        from <= s@.len(),
    ensures
        r == nonws_end(s@, from as int),
        from <= r <= s@.len(),
{
    let n = s.unicode_len();
    let mut j = from;
    while j < n && !is_ws(s.get_char(j))
        invariant
            from <= j <= n,
            n == s@.len(),
            nonws_end(s@, from as int) == nonws_end(s@, j as int),
        decreases n - j,
    {
        j = j + 1;
    }
    j
}

/// Executable scan to the end of the whitespace run starting at `from`.
pub fn scan_ws(s: &str, from: usize) -> (r: usize)
    requires
        from <= s@.len(),
    ensures
        r == ws_end(s@, from as int),
        from <= r <= s@.len(),
{
    let n = s.unicode_len();
    let mut j = from;
    while j < n && is_ws(s.get_char(j))
        invariant
            from <= j <= n,
            n == s@.len(),
            ws_end(s@, from as int) == ws_end(s@, j as int),
        decreases n - j,
    {
        j = j + 1;
    }
    j
}

/// Executable search for the first `c` at or after `from`.
pub fn find_char(s: &str, from: usize, c: char) -> (r: Option<usize>)
    requires
        from <= s@.len(),
    ensures
        match r {
            Some(j) => find_from(s@, from as int, c) == Some(j as int) && from <= j < s@.len(),
            None => find_from(s@, from as int, c) is None,
        },
{
    let n = s.unicode_len();
    let mut j = from;
    while j < n && s.get_char(j) != c
        invariant
            from <= j <= n,
            n == s@.len(),
            find_from(s@, from as int, c) == find_from(s@, j as int, c),
        decreases n - j,
    {
        j = j + 1;
    }
    if j < n {
        Some(j)
    } else {
        None
    }
}

/// Executable character-wise equality of two string slices.
pub fn str_eq(a: &str, b: &str) -> (r: bool)
    ensures
        r == (a@ == b@),
{
    let na = a.unicode_len();
    let nb = b.unicode_len();
    if na != nb {
        return false;
    }
    let mut i: usize = 0;
    while i < na
        invariant
            0 <= i <= na,
            na == a@.len(),
            nb == b@.len(),
            na == nb,
            forall|j: int| 0 <= j < i ==> a@[j] == b@[j],
        decreases na - i,
    {
        if a.get_char(i) != b.get_char(i) {
            return false;
        }
        i = i + 1;
    }
    proof {
        assert(a@ =~= b@);
    }
    true
}

/// Position after the last non-whitespace character strictly before `i`,
/// or `0` if everything before `i` is whitespace.
pub open spec fn rtrim_end(s: Seq<char>, i: int) -> int
    decreases i,
{
    if i <= 0 {
        0
    } else if 0 <= i - 1 < s.len() && is_ws_char(s[i - 1]) {
        rtrim_end(s, i - 1)
    } else {
        i
    }
}

pub proof fn lemma_rtrim_end_le(s: Seq<char>, i: int)
    requires
        0 <= i,
    ensures
        0 <= rtrim_end(s, i) <= i,
    decreases i,
{
    if i > 0 && 0 <= i - 1 < s.len() && is_ws_char(s[i - 1]) {
        lemma_rtrim_end_le(s, i - 1);
    }
}

/// The line with leading and trailing whitespace removed.
pub open spec fn trim_model(s: Seq<char>) -> Seq<char> {
    let a = ws_end(s, 0);
    let b = rtrim_end(s, s.len() as int);
    if a <= b {
        s.subrange(a, b)
    } else {
        Seq::empty()
    }
}

/// Executable trim, proved equal to `trim_model`.
pub fn trim_line(s: &str) -> (r: &str)
    ensures
        r@ == trim_model(s@),
{
    let n = s.unicode_len();
    let a = scan_ws(s, 0);
    let mut b = n;
    while b > a && is_ws(s.get_char(b - 1))
        invariant
            a <= b <= n,
            a == ws_end(s@, 0),
            n == s@.len(),
            rtrim_end(s@, n as int) == rtrim_end(s@, b as int),
        decreases b,
    {
        b = b - 1;
    }
    proof {
        lemma_rtrim_end_le(s@, b as int);
        if b > a {
            // the loop stopped on a non-whitespace character, so `b` is
            // exactly where the trailing-whitespace scan ends
            assert(rtrim_end(s@, b as int) == b);
        } else {
            // everything from `a` on is whitespace; both sides trim to empty
            assert(s@.subrange(a as int, a as int) =~= Seq::<char>::empty());
            if rtrim_end(s@, b as int) < a {
                assert(trim_model(s@) == Seq::<char>::empty());
            } else {
                assert(rtrim_end(s@, b as int) == a);
                assert(trim_model(s@) =~= Seq::<char>::empty());
            }
        }
    }
    s.substring_char(a, b)
}

} // verus!
