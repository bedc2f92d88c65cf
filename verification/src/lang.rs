//! The language tag decomposer: splits a locale-style string such as
//! `en_US.UTF-8` into a prioritized sequence of language tags.
//!
//! The encoding suffix (everything from the first `.`) is dropped; the
//! placeholder locale `C` is replaced by the default tag `en_US`; underscores
//! become hyphens.  The result lists, in order, the base language (the part
//! before the first hyphen) and then the full region-qualified tag; a tag
//! with no hyphen is emitted once.

use vstd::prelude::*;
use vstd::string::*;

use crate::text::{lemma_seg_len, opt_string_view, seg_len, seg_pos, str_eq};

verus! {

/// An underscore becomes a hyphen; every other character stays.
pub open spec fn dash_map(c: char) -> char {
    if c == '_' {
        '-'
    } else {
        c
    }
}

/// `s` with every underscore replaced by a hyphen.
pub open spec fn dashed(s: Seq<char>) -> Seq<char>
    decreases s.len(),
{
    if s.len() == 0 {
        s
    } else {
        seq![dash_map(s[0])] + dashed(s.drop_first())
    }
}

/// The locale tag with its encoding suffix dropped, the placeholder `C`
/// replaced by the default tag, and underscores turned into hyphens.
pub open spec fn normalized_locale(raw: Seq<char>) -> Seq<char> {
    let base = raw.subrange(0, seg_len(raw, '.') as int);
    dashed(
        if base == "C"@ {
            "en_US"@
        } else {
            base
        },
    )
}

/// The prioritized tags derived from one locale string: base language first,
/// full tag second; one emission when the tag has no region part.
pub open spec fn lang_tags(raw: Seq<char>) -> Seq<Seq<char>> {
    let a = normalized_locale(raw);
    let d = seg_len(a, '-');
    if d < a.len() {
        seq![a.subrange(0, d as int), a]
    } else {
        seq![a]
    }
}

/// The tags for an optional locale value; an unset locale reads as empty.
pub open spec fn lang_tags_opt(locale: Option<Seq<char>>) -> Seq<Seq<char>> {
    lang_tags(
        match locale {
            Some(s) => s,
            None => Seq::empty(),
        },
    )
}

/// The sequence is finite and free of repeats: at least one and at most two
/// tags come out, and when there are two they differ (the base language is
/// strictly shorter than the region-qualified tag).
pub proof fn lemma_lang_tags_emissions(raw: Seq<char>)
    ensures
        1 <= lang_tags(raw).len() <= 2,
        lang_tags(raw).len() == 2 ==> lang_tags(raw)[0] != lang_tags(raw)[1],
{
    let a = normalized_locale(raw);
    let d = seg_len(a, '-');
    lemma_seg_len(a, '-');
    if d < a.len() {
        assert(a.subrange(0, d as int).len() == d);
    }
}

fn dashify(s: &str) -> (r: String)
    ensures
        r@ == dashed(s@),
    decreases s@.len(),
{
    let n = s.unicode_len();
    if n == 0 {
        let r = String::new();
        proof {
            assert(r@ =~= dashed(s@));
        }
        r
    } else {
        let head: &str = if s.get_char(0) == '_' {
            "-"
        } else {
            s.substring_char(0, 1)
        };
        proof {
            reveal_strlit("-");
            assert(head@ =~= seq![dash_map(s@[0])]);
        }
        let rest = s.substring_char(1, n);
        proof {
            assert(rest@ =~= s@.drop_first());
        }
        let tail = dashify(rest);
        let mut out = String::from_str(head);
        out.append(tail.as_str());
        out
    }
}

/// The prioritized language tags for a locale value, typically the `LANG`
/// environment variable: most specific first, each emitted exactly once.
pub fn lang(locale: Option<String>) -> (r: Vec<String>)
    ensures
        r@.len() == lang_tags_opt(opt_string_view(locale)).len(),
        forall|i: int|
            0 <= i < r@.len() ==> #[trigger] r@[i]@ == lang_tags_opt(opt_string_view(locale))[i],
{
    let raw: &str = match &locale {
        Some(s) => s.as_str(),
        None => "",
    };
    proof {
        reveal_strlit("");
        assert(""@ =~= Seq::<char>::empty());
    }
    let dot = seg_pos(raw, '.');
    proof {
        lemma_seg_len(raw@, '.');
    }
    let base = raw.substring_char(0, dot);
    let subst: &str = if str_eq(base, "C") {
        "en_US"
    } else {
        base
    };
    let a = dashify(subst);
    let alen = a.as_str().unicode_len();
    let d = seg_pos(a.as_str(), '-');
    proof {
        lemma_seg_len(a@, '-');
    }
    let mut out: Vec<String> = Vec::new();
    if d < alen {
        let prefix = a.as_str().substring_char(0, d);
        out.push(String::from_str(prefix));
        out.push(a);
    } else {
        out.push(a);
    }
    out
}

} // verus!
