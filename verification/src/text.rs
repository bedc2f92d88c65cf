//! Character-level text utilities shared by the record, property-list and
//! language parsers: first-occurrence scans, substring search, equality with
//! and without ASCII case, and trimming of quotes, whitespace and suffixes.
//!
//! Every specification here is over `Seq<char>`, the view of `&str` and
//! `String`, so the parsers' contracts read as statements about the text
//! itself.

use vstd::prelude::*;
use vstd::string::*;

verus! {

/// The view of an optional borrowed string.
pub open spec fn opt_str_view(o: Option<&str>) -> Option<Seq<char>> {
    match o {
        Some(s) => Some(s@),
        None => None,
    }
}

/// The view of an optional owned string.
pub open spec fn opt_string_view(o: Option<String>) -> Option<Seq<char>> {
    match o {
        Some(s) => Some(s@),
        None => None,
    }
}

// ---------------------------------------------------------------------------
// First occurrence of a single character
// ---------------------------------------------------------------------------

/// The number of characters before the first occurrence of `stop` in `s`
/// (`s.len()` when `stop` does not occur).
pub open spec fn seg_len(s: Seq<char>, stop: char) -> nat
    decreases s.len(),
{
    if s.len() == 0 {
        0
    } else if s[0] == stop {
        0
    } else {
        1 + seg_len(s.drop_first(), stop)
    }
}

pub proof fn lemma_seg_len(s: Seq<char>, stop: char)
    ensures
        seg_len(s, stop) <= s.len(),
        forall|j: int| 0 <= j < seg_len(s, stop) ==> s[j] != stop,
        seg_len(s, stop) < s.len() ==> s[seg_len(s, stop) as int] == stop,
    decreases s.len(),
{
    if s.len() == 0 {
    } else if s[0] == stop {
    } else {
        lemma_seg_len(s.drop_first(), stop);
        assert forall|j: int| 0 <= j < seg_len(s, stop) implies s[j] != stop by {
            if j > 0 {
                assert(s.drop_first()[j - 1] == s[j]);
            }
        }
        if seg_len(s, stop) < s.len() {
            assert(s.drop_first()[seg_len(s, stop) as int - 1] == s[seg_len(s, stop) as int]);
        }
    }
}

/// The index of the first occurrence of `stop` in `s`, or `s@.len()` when
/// `stop` does not occur.
pub fn seg_pos(s: &str, stop: char) -> (n: usize)
    ensures
        n == seg_len(s@, stop),
{
    let len = s.unicode_len();
    let mut i: usize = 0;
    while i < len
        invariant
            len == s@.len(),
            i <= len,
            forall|j: int| 0 <= j < i ==> s@[j] != stop,
        decreases len - i,
    {
        if s.get_char(i) == stop {
            proof {
                lemma_seg_len(s@, stop);
            }
            return i;
        }
        i += 1;
    }
    proof {
        lemma_seg_len(s@, stop);
    }
    len
}

// ---------------------------------------------------------------------------
// Equality of character sequences
// ---------------------------------------------------------------------------

pub fn str_eq(a: &str, b: &str) -> (r: bool)
    ensures
        r == (a@ == b@),
{
    let alen = a.unicode_len();
    let blen = b.unicode_len();
    if alen != blen {
        return false;
    }
    let mut i: usize = 0;
    while i < alen
        invariant
            alen == a@.len(),
            blen == b@.len(),
            alen == blen,
            i <= alen,
            forall|j: int| 0 <= j < i ==> a@[j] == b@[j],
        decreases alen - i,
    {
        if a.get_char(i) != b.get_char(i) {
            return false;
        }
        i += 1;
    }
    proof {
        assert(a@ =~= b@);
    }
    true
}

// ---------------------------------------------------------------------------
// ASCII-case-insensitive equality
// ---------------------------------------------------------------------------

/// The code point of `c` with an ASCII upper-case letter folded to lower case.
pub open spec fn lower_code(c: char) -> u32 {
    if 'A' <= c && c <= 'Z' {
        (c as u32 + 32) as u32
    } else {
        c as u32
    }
}

/// Equality of two character sequences up to ASCII case.
pub open spec fn seq_eq_ci(a: Seq<char>, b: Seq<char>) -> bool {
    a.len() == b.len() && forall|i: int|
        0 <= i < a.len() ==> #[trigger] lower_code(a[i]) == lower_code(b[i])
}

fn lower_code_exec(c: char) -> (r: u32)
    ensures
        r == lower_code(c),
{
    if 'A' <= c && c <= 'Z' {
        c as u32 + 32
    } else {
        c as u32
    }
}

pub fn str_eq_ci(a: &str, b: &str) -> (r: bool)
    ensures
        r == seq_eq_ci(a@, b@),
{
    let alen = a.unicode_len();
    let blen = b.unicode_len();
    if alen != blen {
        return false;
    }
    let mut i: usize = 0;
    while i < alen
        invariant
            alen == a@.len(),
            blen == b@.len(),
            alen == blen,
            i <= alen,
            forall|j: int| 0 <= j < i ==> #[trigger] lower_code(a@[j]) == lower_code(b@[j]),
        decreases alen - i,
    {
        if lower_code_exec(a.get_char(i)) != lower_code_exec(b.get_char(i)) {
            return false;
        }
        i += 1;
    }
    true
}

/// Case-insensitive equality is symmetric.
pub proof fn lemma_eq_ci_symmetric(a: Seq<char>, b: Seq<char>)
    requires
        seq_eq_ci(a, b),
    ensures
        seq_eq_ci(b, a),
{
}

/// Case-insensitive equality is transitive.
pub proof fn lemma_eq_ci_transitive(a: Seq<char>, b: Seq<char>, c: Seq<char>)
    requires
        seq_eq_ci(a, b),
        seq_eq_ci(b, c),
    ensures
        seq_eq_ci(a, c),
{
    assert forall|i: int| 0 <= i < a.len() implies #[trigger] lower_code(a[i]) == lower_code(c[i]) by {
        assert(lower_code(a[i]) == lower_code(b[i]));
        assert(lower_code(b[i]) == lower_code(c[i]));
    }
}

// ---------------------------------------------------------------------------
// Substring search
// ---------------------------------------------------------------------------

/// `pat` occurs in `s` starting at index `i`.
pub open spec fn match_at(s: Seq<char>, pat: Seq<char>, i: int) -> bool {
    0 <= i && i + pat.len() <= s.len() && s.subrange(i, i + pat.len() as int) == pat
}

/// Whether `pat` occurs in `s` at index `i`.
pub fn check_match(s: &str, pat: &str, i: usize) -> (r: bool)
    ensures
        r == match_at(s@, pat@, i as int),
{
    let slen = s.unicode_len();
    let plen = pat.unicode_len();
    if i > slen || plen > slen - i {
        return false;
    }
    let mut k: usize = 0;
    while k < plen
        invariant
            slen == s@.len(),
            plen == pat@.len(),
            i + plen <= slen,
            k <= plen,
            forall|j: int| 0 <= j < k ==> s@[i + j] == pat@[j],
        decreases plen - k,
    {
        if s.get_char(i + k) != pat.get_char(k) {
            proof {
                assert(s@.subrange(i as int, i + plen) != pat@) by {
                    if s@.subrange(i as int, i + plen) == pat@ {
                        assert(s@.subrange(i as int, i + plen)[k as int] == s@[i + k]);
                    }
                }
            }
            return false;
        }
        k += 1;
    }
    proof {
        assert(s@.subrange(i as int, i + plen) =~= pat@);
    }
    true
}

/// The index of the first occurrence of `pat` in `s`, if any.
pub open spec fn find_sub(s: Seq<char>, pat: Seq<char>) -> Option<nat>
    decreases s.len(),
{
    if pat.len() <= s.len() && s.subrange(0, pat.len() as int) == pat {
        Some(0 as nat)
    } else if s.len() == 0 {
        None
    } else {
        match find_sub(s.drop_first(), pat) {
            Some(n) => Some((n + 1) as nat),
            None => None,
        }
    }
}

pub proof fn lemma_find_sub(s: Seq<char>, pat: Seq<char>)
    ensures
        match find_sub(s, pat) {
            None => forall|i: int| !match_at(s, pat, i),
            Some(n) => match_at(s, pat, n as int) && forall|i: int|
                0 <= i < n ==> !match_at(s, pat, i),
        },
    decreases s.len(),
{
    if pat.len() <= s.len() && s.subrange(0, pat.len() as int) == pat {
    } else if s.len() == 0 {
        assert forall|i: int| !match_at(s, pat, i) by {}
    } else {
        lemma_find_sub(s.drop_first(), pat);
        assert forall|i: int| 1 <= i implies (match_at(s, pat, i) == match_at(
            s.drop_first(),
            pat,
            i - 1,
        )) by {
            if 0 <= i - 1 && i - 1 + pat.len() <= s.drop_first().len() {
                assert(s.subrange(i, i + pat.len() as int) =~= s.drop_first().subrange(
                    i - 1,
                    i - 1 + pat.len() as int,
                ));
            }
        }
        assert(!match_at(s, pat, 0));
    }
}

/// The position of the first occurrence of `pat` in `s`, if any.
pub fn find_sub_pos(s: &str, pat: &str) -> (r: Option<usize>)
    ensures
        match find_sub(s@, pat@) {
            None => r is None,
            Some(n) => r matches Some(m) && m == n,
        },
{
    let slen = s.unicode_len();
    let plen = pat.unicode_len();
    if plen > slen {
        proof {
            lemma_find_sub(s@, pat@);
        }
        return None;
    }
    if plen == 0 {
        proof {
            assert(s@.subrange(0, 0) =~= pat@);
        }
        return Some(0);
    }
    let mut i: usize = 0;
    while i <= slen - plen
        invariant
            slen == s@.len(),
            plen == pat@.len(),
            0 < plen <= slen,
            i <= slen - plen + 1,
            forall|j: int| 0 <= j < i ==> !match_at(s@, pat@, j),
        decreases slen - i,
    {
        if check_match(s, pat, i) {
            proof {
                lemma_find_sub(s@, pat@);
            }
            return Some(i);
        }
        i += 1;
    }
    proof {
        lemma_find_sub(s@, pat@);
    }
    None
}

// ---------------------------------------------------------------------------
// Trimming
// ---------------------------------------------------------------------------

/// The characters that `str::trim` removes: Unicode whitespace.
pub open spec fn is_space_char(c: char) -> bool {
    c == ' ' || c == '\t' || c == '\n' || c == '\r' || c == '\u{b}' || c == '\u{c}'
        || c == '\u{85}' || c == '\u{a0}' || c == '\u{1680}' || ('\u{2000}' <= c && c
        <= '\u{200a}') || c == '\u{2028}' || c == '\u{2029}' || c == '\u{202f}' || c == '\u{205f}'
        || c == '\u{3000}'
}

fn is_space(c: char) -> (r: bool)
    ensures
        r == is_space_char(c),
{
    c == ' ' || c == '\t' || c == '\n' || c == '\r' || c == '\u{b}' || c == '\u{c}'
        || c == '\u{85}' || c == '\u{a0}' || c == '\u{1680}' || ('\u{2000}' <= c && c
        <= '\u{200a}') || c == '\u{2028}' || c == '\u{2029}' || c == '\u{202f}' || c == '\u{205f}'
        || c == '\u{3000}'
}

/// `s` without its leading whitespace.
pub open spec fn trim_front_ws(s: Seq<char>) -> Seq<char>
    decreases s.len(),
{
    if s.len() > 0 && is_space_char(s[0]) {
        trim_front_ws(s.drop_first())
    } else {
        s
    }
}

/// `s` without its trailing whitespace.
pub open spec fn trim_back_ws(s: Seq<char>) -> Seq<char>
    decreases s.len(),
{
    if s.len() > 0 && is_space_char(s.last()) {
        trim_back_ws(s.drop_last())
    } else {
        s
    }
}

/// `s` without leading and trailing whitespace, as `str::trim` leaves it.
pub open spec fn trim_ws(s: Seq<char>) -> Seq<char> {
    trim_back_ws(trim_front_ws(s))
}

fn trim_front_ws_exec<'a>(s: &'a str) -> (r: &'a str)
    ensures
        r@ == trim_front_ws(s@),
    decreases s@.len(),
{
    let n = s.unicode_len();
    if n > 0 && is_space(s.get_char(0)) {
        let rest = s.substring_char(1, n);
        proof {
            assert(rest@ =~= s@.drop_first());
        }
        trim_front_ws_exec(rest)
    } else {
        s
    }
}

fn trim_back_ws_exec<'a>(s: &'a str) -> (r: &'a str)
    ensures
        r@ == trim_back_ws(s@),
    decreases s@.len(),
{
    let n = s.unicode_len();
    if n > 0 && is_space(s.get_char(n - 1)) {
        let rest = s.substring_char(0, n - 1);
        proof {
            assert(rest@ =~= s@.drop_last());
        }
        trim_back_ws_exec(rest)
    } else {
        s
    }
}

/// `s` without leading and trailing whitespace.
pub fn trim_ws_exec<'a>(s: &'a str) -> (r: &'a str)
    ensures
        r@ == trim_ws(s@),
{
    trim_back_ws_exec(trim_front_ws_exec(s))
}

/// `s` without its leading quote characters.
pub open spec fn strip_front_quotes(s: Seq<char>) -> Seq<char>
    decreases s.len(),
{
    if s.len() > 0 && s[0] == '"' {
        strip_front_quotes(s.drop_first())
    } else {
        s
    }
}

/// `s` without its trailing quote characters.
pub open spec fn strip_back_quotes(s: Seq<char>) -> Seq<char>
    decreases s.len(),
{
    if s.len() > 0 && s.last() == '"' {
        strip_back_quotes(s.drop_last())
    } else {
        s
    }
}

/// `s` without leading and trailing quote characters, as
/// `str::trim_matches('"')` leaves it.
pub open spec fn strip_quotes(s: Seq<char>) -> Seq<char> {
    strip_back_quotes(strip_front_quotes(s))
}

fn strip_front_quotes_exec<'a>(s: &'a str) -> (r: &'a str)
    ensures
        r@ == strip_front_quotes(s@),
    decreases s@.len(),
{
    let n = s.unicode_len();
    if n > 0 && s.get_char(0) == '"' {
        let rest = s.substring_char(1, n);
        proof {
            assert(rest@ =~= s@.drop_first());
        }
        strip_front_quotes_exec(rest)
    } else {
        s
    }
}

fn strip_back_quotes_exec<'a>(s: &'a str) -> (r: &'a str)
    ensures
        r@ == strip_back_quotes(s@),
    decreases s@.len(),
{
    let n = s.unicode_len();
    if n > 0 && s.get_char(n - 1) == '"' {
        let rest = s.substring_char(0, n - 1);
        proof {
            assert(rest@ =~= s@.drop_last());
        }
        strip_back_quotes_exec(rest)
    } else {
        s
    }
}

/// `s` without leading and trailing quote characters.
pub fn strip_quotes_exec<'a>(s: &'a str) -> (r: &'a str)
    ensures
        r@ == strip_quotes(s@),
{
    strip_back_quotes_exec(strip_front_quotes_exec(s))
}

/// `s` without any trailing repetitions of `pat`, as
/// `str::trim_end_matches(pat)` leaves it.
pub open spec fn strip_back_pat(s: Seq<char>, pat: Seq<char>) -> Seq<char>
    decreases s.len(),
{
    if pat.len() > 0 && pat.len() <= s.len() && s.subrange(
        s.len() - pat.len(),
        s.len() as int,
    ) == pat {
        strip_back_pat(s.subrange(0, s.len() - pat.len()), pat)
    } else {
        s
    }
}

/// `s` without any trailing repetitions of `pat`.
pub fn strip_back_pat_exec<'a>(s: &'a str, pat: &str) -> (r: &'a str)
    ensures
        r@ == strip_back_pat(s@, pat@),
    decreases s@.len(),
{
    let n = s.unicode_len();
    let p = pat.unicode_len();
    if p > 0 && p <= n && check_match(s, pat, n - p) {
        let rest = s.substring_char(0, n - p);
        strip_back_pat_exec(rest, pat)
    } else {
        s
    }
}

} // verus!
