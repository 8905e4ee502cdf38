//! The capture layouts and their matcher.
//!
//! A layout is matched against the whole trimmed line, anchored at both
//! ends. The Common layout is three whitespace-separated tokens, a
//! bracketed timestamp, a quoted request of exactly three tokens
//! separated by single whitespace characters, and two more tokens; the
//! Combined layout appends two quoted sections. Matching is
//! deterministic: tokens are maximal non-whitespace runs, the timestamp
//! ends at the first closing bracket, and a quoted section ends at the
//! first closing quote.
//!
//! A successful match yields [`Captures`]: the whole line in position
//! 0 and one captured slice per position of the layout, ten for Common
//! and twelve for Combined.

use vstd::prelude::*;
use crate::scan::{find_char, find_from, is_ws_char, nonws_end, scan_non_ws, scan_ws, ws_end};

verus! {

use vstd::string::StrSliceExecFns;

/// The capture slices of one matched line, position 0 being the whole
/// line.
#[derive(Debug)]
pub struct Captures {
    groups: Vec<String>,
}

impl View for Captures {
    type V = Seq<Seq<char>>;

    closed spec fn view(&self) -> Seq<Seq<char>> {
        self.groups@.map_values(|g: String| g@)
    }
}

impl Captures {
    /// Wrap explicit capture slices, position 0 first.
    pub fn new(groups: Vec<String>) -> (r: Captures)
        ensures
            r@ == groups@.map_values(|g: String| g@),
    {
        Captures { groups }
    }

    /// The capture at `index`, if the layout has such a position.
    pub fn get(&self, index: usize) -> (r: Option<&String>)
        ensures
            match r {
                Some(v) => index < self@.len() && v@ == self@[index as int],
                None => index >= self@.len(),
            },
    {
        if index < self.groups.len() {
            Some(&self.groups[index])
        } else {
            None
        }
    }

    /// How many positions the match captured, the whole line included.
    pub fn len(&self) -> (r: usize)
        ensures
            r == self@.len(),
    {
        self.groups.len()
    }
}

/// The positions delimiting the captures shared by both layouts:
/// host, ident and user tokens, the bracketed timestamp, the quoted
/// three-token request, and the status and length tokens.
pub struct CoreSpans {
    pub host_end: int,
    pub ident_start: int,
    pub ident_end: int,
    pub user_start: int,
    pub user_end: int,
    pub ts_start: int,
    pub ts_end: int,
    pub req_start: int,
    pub method_end: int,
    pub path_start: int,
    pub path_end: int,
    pub proto_start: int,
    pub proto_end: int,
    pub status_start: int,
    pub status_end: int,
    pub bytes_start: int,
    pub bytes_end: int,
}

/// Where the shared prefix of both layouts matches `s`, if it does:
/// each token is a maximal non-whitespace run, tokens are separated by
/// at least one whitespace character, the timestamp sits between `[`
/// and the first following `]`, and the request sits between quotes
/// with exactly one whitespace character after its first and second
/// token.
pub open spec fn core_spans(s: Seq<char>) -> Option<CoreSpans> {
    let e1 = nonws_end(s, 0);
    let i2 = ws_end(s, e1);
    let e2 = nonws_end(s, i2);
    let i3 = ws_end(s, e2);
    let e3 = nonws_end(s, i3);
    let i4 = ws_end(s, e3);
    if e1 <= 0 || i2 <= e1 || e2 <= i2 || i3 <= e2 || e3 <= i3 || i4 <= e3 || i4 >= s.len()
        || s[i4] != '[' {
        None
    } else {
        match find_from(s, i4 + 1, ']') {
            None => None,
            Some(j) => {
                let i5 = ws_end(s, j + 1);
                if j <= i4 + 1 || i5 <= j + 1 || i5 >= s.len() || s[i5] != '"' {
                    None
                } else {
                    let m0 = i5 + 1;
                    let em = nonws_end(s, m0);
                    if em <= m0 || em >= s.len() || !is_ws_char(s[em]) {
                        None
                    } else {
                        let p0 = em + 1;
                        let ep = nonws_end(s, p0);
                        if ep <= p0 || ep >= s.len() || !is_ws_char(s[ep]) {
                            None
                        } else {
                            let q0 = ep + 1;
                            let eq = nonws_end(s, q0);
                            if eq < q0 + 2 || s[eq - 1] != '"' {
                                None
                            } else {
                                let i9 = ws_end(s, eq);
                                let e9 = nonws_end(s, i9);
                                let i10 = ws_end(s, e9);
                                let e10 = nonws_end(s, i10);
                                if i9 <= eq || e9 <= i9 || i10 <= e9 || e10 <= i10 {
                                    None
                                } else {
                                    Some(
                                        CoreSpans {
                                            host_end: e1,
                                            ident_start: i2,
                                            ident_end: e2,
                                            user_start: i3,
                                            user_end: e3,
                                            ts_start: i4 + 1,
                                            ts_end: j,
                                            req_start: m0,
                                            method_end: em,
                                            path_start: p0,
                                            path_end: ep,
                                            proto_start: q0,
                                            proto_end: eq - 1,
                                            status_start: i9,
                                            status_end: e9,
                                            bytes_start: i10,
                                            bytes_end: e10,
                                        },
                                    )
                                }
                            }
                        }
                    }
                }
            },
        }
    }
}

/// The eleven capture slices of the shared prefix, the whole line
/// first.
pub open spec fn core_caps(s: Seq<char>, p: CoreSpans) -> Seq<Seq<char>> {
    seq![
        s,
        s.subrange(0, p.host_end),
        s.subrange(p.ident_start, p.ident_end),
        s.subrange(p.user_start, p.user_end),
        s.subrange(p.ts_start, p.ts_end),
        s.subrange(p.req_start, p.proto_end),
        s.subrange(p.req_start, p.method_end),
        s.subrange(p.path_start, p.path_end),
        s.subrange(p.proto_start, p.proto_end),
        s.subrange(p.status_start, p.status_end),
        s.subrange(p.bytes_start, p.bytes_end),
    ]
}

/// Where a Common-layout line ends: the shared prefix with the length
/// token flush against the end of the line.
pub open spec fn common_captures(s: Seq<char>) -> Option<Seq<Seq<char>>> {
    match core_spans(s) {
        None => None,
        Some(p) => if p.bytes_end == s.len() {
            Some(core_caps(s, p))
        } else {
            None
        },
    }
}

/// Where the two quoted sections of the Combined layout sit after the
/// shared prefix: each is non-empty, ends at the first closing quote,
/// and the second is flush against the end of the line.
pub open spec fn tail_spans(s: Seq<char>, from: int) -> Option<(int, int, int, int)> {
    let i11 = ws_end(s, from);
    if i11 <= from || i11 >= s.len() || s[i11] != '"' {
        None
    } else {
        match find_from(s, i11 + 1, '"') {
            None => None,
            Some(r1) => if r1 <= i11 + 1 {
                None
            } else {
                let i12 = ws_end(s, r1 + 1);
                if i12 <= r1 + 1 || i12 >= s.len() || s[i12] != '"' {
                    None
                } else {
                    match find_from(s, i12 + 1, '"') {
                        None => None,
                        Some(r2) => if r2 <= i12 + 1 || r2 + 1 != s.len() {
                            None
                        } else {
                            Some((i11 + 1, r1, i12 + 1, r2))
                        },
                    }
                }
            },
        }
    }
}

/// The thirteen capture slices of a Combined-layout line.
pub open spec fn combined_captures(s: Seq<char>) -> Option<Seq<Seq<char>>> {
    match core_spans(s) {
        None => None,
        Some(p) => match tail_spans(s, p.bytes_end) {
            None => None,
            Some(t) => Some(
                core_caps(s, p) + seq![s.subrange(t.0, t.1), s.subrange(t.2, t.3)],
            ),
        },
    }
}

/// Copy the slice `[a, b)` of the line out as an owned capture.
fn snip(s: &str, a: usize, b: usize) -> (r: String)
    requires
        a <= b <= s@.len(),
    ensures
        r@ == s@.subrange(a as int, b as int),
{
    s.substring_char(a, b).to_owned()
}

/// Match the shared prefix of both layouts, yielding the eleven
/// captures and the position where the length token ends.
fn scan_core(s: &str) -> (r: Option<(Vec<String>, usize)>)
    ensures
        match r {
            Some((caps, end)) => {
                &&& end <= s@.len()
                &&& core_spans(s@) matches Some(p) && end == p.bytes_end && caps@.map_values(
                    |g: String| g@,
                ) == core_caps(s@, p)
            },
            None => core_spans(s@) is None,
        },
{
    let n = s.unicode_len();
    let e1 = scan_non_ws(s, 0);
    let i2 = scan_ws(s, e1);
    let e2 = scan_non_ws(s, i2);
    let i3 = scan_ws(s, e2);
    let e3 = scan_non_ws(s, i3);
    let i4 = scan_ws(s, e3);
    if e1 == 0 || i2 <= e1 || e2 <= i2 || i3 <= e2 || e3 <= i3 || i4 <= e3 || i4 >= n
        || s.get_char(i4) != '[' {
        return None;
    }
    let j = match find_char(s, i4 + 1, ']') {
        None => {
            return None;
        },
        Some(j) => j,
    };
    let i5 = scan_ws(s, j + 1);
    if j <= i4 + 1 || i5 <= j + 1 || i5 >= n || s.get_char(i5) != '"' {
        return None;
    }
    let m0 = i5 + 1;
    let em = scan_non_ws(s, m0);
    if em <= m0 || em >= n || !crate::scan::is_ws(s.get_char(em)) {
        return None;
    }
    let p0 = em + 1;
    let ep = scan_non_ws(s, p0);
    if ep <= p0 || ep >= n || !crate::scan::is_ws(s.get_char(ep)) {
        return None;
    }
    let q0 = ep + 1;
    let eq = scan_non_ws(s, q0);
    if eq - q0 < 2 || s.get_char(eq - 1) != '"' {
        return None;
    }
    let i9 = scan_ws(s, eq);
    let e9 = scan_non_ws(s, i9);
    let i10 = scan_ws(s, e9);
    let e10 = scan_non_ws(s, i10);
    if i9 <= eq || e9 <= i9 || i10 <= e9 || e10 <= i10 {
        return None;
    }
    let mut caps: Vec<String> = Vec::new();
    caps.push(snip(s, 0, n));
    caps.push(snip(s, 0, e1));
    caps.push(snip(s, i2, e2));
    caps.push(snip(s, i3, e3));
    caps.push(snip(s, i4 + 1, j));
    caps.push(snip(s, m0, eq - 1));
    caps.push(snip(s, m0, em));
    caps.push(snip(s, p0, ep));
    caps.push(snip(s, q0, eq - 1));
    caps.push(snip(s, i9, e9));
    caps.push(snip(s, i10, e10));
    proof {
        let p = core_spans(s@)->Some_0;
        assert(s@.subrange(0, n as int) =~= s@);
        assert(caps@.map_values(|g: String| g@) =~= core_caps(s@, p));
    }
    Some((caps, e10))
}

/// Match a line against the Common layout.
pub fn match_common(s: &str) -> (r: Option<Captures>)
    ensures
        match r {
            Some(c) => common_captures(s@) matches Some(m) && c@ == m,
            None => common_captures(s@) is None,
        },
{
    let n = s.unicode_len();
    match scan_core(s) {
        None => None,
        Some((caps, end)) => {
            if end == n {
                Some(Captures::new(caps))
            } else {
                None
            }
        },
    }
}

/// Match a line against the Combined layout.
pub fn match_combined(s: &str) -> (r: Option<Captures>)
    ensures
        match r {
            Some(c) => combined_captures(s@) matches Some(m) && c@ == m,
            None => combined_captures(s@) is None,
        },
{
    let n = s.unicode_len();
    let (mut caps, end) = match scan_core(s) {
        None => {
            return None;
        },
        Some(ce) => ce,
    };
    let i11 = scan_ws(s, end);
    if i11 <= end || i11 >= n || s.get_char(i11) != '"' {
        return None;
    }
    let r1 = match find_char(s, i11 + 1, '"') {
        None => {
            return None;
        },
        Some(r1) => r1,
    };
    if r1 <= i11 + 1 {
        return None;
    }
    let i12 = scan_ws(s, r1 + 1);
    if i12 <= r1 + 1 || i12 >= n || s.get_char(i12) != '"' {
        return None;
    }
    let r2 = match find_char(s, i12 + 1, '"') {
        None => {
            return None;
        },
        Some(r2) => r2,
    };
    if r2 <= i12 + 1 || r2 + 1 != n {
        return None;
    }
    caps.push(snip(s, i11 + 1, r1));
    caps.push(snip(s, i12 + 1, r2));
    proof {
        let p = core_spans(s@)->Some_0;
        let t = tail_spans(s@, p.bytes_end)->Some_0;
        assert(caps@.map_values(|g: String| g@) =~= core_caps(s@, p) + seq![
            s@.subrange(t.0, t.1),
            s@.subrange(t.2, t.3),
        ]);
    }
    Some(Captures::new(caps))
}

} // verus!
