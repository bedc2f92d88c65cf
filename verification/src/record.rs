//! The text record parser: extracts a field from line-oriented `KEY=VALUE`
//! text, such as OS release files.
//!
//! Lines are scanned in order and split on the first `=`.  A line whose key
//! equals the primary key ends the scan at once with that line's value, quote
//! characters stripped from both ends.  A line whose key equals the fallback
//! key has its (quote-stripped) value retained, and the retained value is
//! returned only when the whole scan ends without the primary key.  A matched
//! key with no `=` on its line, or an input with neither key, is a parse
//! failure.

use vstd::prelude::*;
use vstd::string::*;

use crate::error::Error;
use crate::text::{
    lemma_seg_len, opt_str_view, opt_string_view, seg_len, seg_pos, str_eq, strip_back_quotes,
    strip_front_quotes, strip_quotes, strip_quotes_exec,
};

verus! {

/// The key part of a line: everything before the first `=`, or the whole
/// line when it has no `=`.
pub open spec fn line_key(line: Seq<char>) -> Seq<char> {
    line.subrange(0, seg_len(line, '=') as int)
}

/// Whether a line carries a value, that is, contains an `=`.
pub open spec fn line_has_value(line: Seq<char>) -> bool {
    seg_len(line, '=') < line.len()
}

/// The value part of a line: everything after the first `=`.
pub open spec fn line_value(line: Seq<char>) -> Seq<char> {
    line.subrange(seg_len(line, '=') as int + 1, line.len() as int)
}

/// One scan step over the remaining text `s`, carrying the value retained
/// from an earlier fallback-key line in `pending`.
pub open spec fn scan_records(
    s: Seq<char>,
    primary: Seq<char>,
    fallback: Option<Seq<char>>,
    pending: Option<Seq<char>>,
) -> Result<Seq<char>, ()>
    decreases s.len(),
{
    let n = seg_len(s, '\n');
    let line = if n >= s.len() {
        s
    } else {
        s.subrange(0, n as int)
    };
    if line_key(line) == primary {
        if line_has_value(line) {
            Ok(strip_quotes(line_value(line)))
        } else {
            Err(())
        }
    } else if fallback matches Some(f) && line_key(line) == f {
        if line_has_value(line) {
            let retained = Some(strip_quotes(line_value(line)));
            if n >= s.len() {
                end_of_scan(retained)
            } else {
                scan_records(s.subrange(n as int + 1, s.len() as int), primary, fallback, retained)
            }
        } else {
            Err(())
        }
    } else {
        if n >= s.len() {
            end_of_scan(pending)
        } else {
            scan_records(s.subrange(n as int + 1, s.len() as int), primary, fallback, pending)
        }
    }
}

/// What a finished scan yields: the retained fallback value, or failure.
pub open spec fn end_of_scan(pending: Option<Seq<char>>) -> Result<Seq<char>, ()> {
    match pending {
        Some(v) => Ok(v),
        None => Err(()),
    }
}

/// What [`record_value`] returns, as a function of the text and the keys.
pub open spec fn record_value_spec(
    text: Seq<char>,
    primary: Seq<char>,
    fallback: Option<Seq<char>>,
) -> Result<Seq<char>, ()> {
    scan_records(text, primary, fallback, None)
}

fn scan_records_exec(
    text: &str,
    primary: &str,
    fallback: Option<&str>,
    pending: Option<String>,
) -> (r: Result<String, Error>)
    ensures
        match scan_records(text@, primary@, opt_str_view(fallback), opt_string_view(pending)) {
            Ok(v) => r matches Ok(s) && s@ == v,
            Err(_) => r matches Err(e) && e is Parse,
        },
    decreases text@.len(),
{
    let tlen = text.unicode_len();
    let n = seg_pos(text, '\n');
    proof {
        lemma_seg_len(text@, '\n');
    }
    let line: &str = if n >= tlen {
        text
    } else {
        text.substring_char(0, n)
    };
    let llen = line.unicode_len();
    let e = seg_pos(line, '=');
    proof {
        lemma_seg_len(line@, '=');
    }
    let key = line.substring_char(0, e);
    if str_eq(key, primary) {
        if e < llen {
            let value = line.substring_char(e + 1, llen);
            Ok(String::from_str(strip_quotes_exec(value)))
        } else {
            Err(Error::Parse)
        }
    } else {
        let is_fallback = match fallback {
            Some(f) => str_eq(key, f),
            None => false,
        };
        if is_fallback {
            if e < llen {
                let value = line.substring_char(e + 1, llen);
                let retained = Some(String::from_str(strip_quotes_exec(value)));
                if n >= tlen {
                    match retained {
                        Some(v) => Ok(v),
                        None => Err(Error::Parse),
                    }
                } else {
                    let rest = text.substring_char(n + 1, tlen);
                    scan_records_exec(rest, primary, fallback, retained)
                }
            } else {
                Err(Error::Parse)
            }
        } else {
            if n >= tlen {
                match pending {
                    Some(v) => Ok(v),
                    None => Err(Error::Parse),
                }
            } else {
                let rest = text.substring_char(n + 1, tlen);
                scan_records_exec(rest, primary, fallback, pending)
            }
        }
    }
}

/// Extract a field from line-oriented `KEY=VALUE` text.
///
/// The first line whose key is `primary` wins at once; failing that, the
/// last line whose key is `fallback` is used; with neither key present, or a
/// matched key on a line with no `=`, the result is [`Error::Parse`].  Values
/// have quote characters stripped from both ends.
pub fn record_value(text: &str, primary: &str, fallback: Option<&str>) -> (r: Result<
    String,
    Error,
>)
    ensures
        match record_value_spec(text@, primary@, opt_str_view(fallback)) {
            Ok(v) => r matches Ok(s) && s@ == v,
            Err(_) => r matches Err(e) && e is Parse,
        },
{
    scan_records_exec(text, primary, fallback, None)
}

proof fn lemma_strip_front_no_quote(s: Seq<char>)
    ensures
        strip_front_quotes(s).len() > 0 ==> strip_front_quotes(s)[0] != '"',
    decreases s.len(),
{
    if s.len() > 0 && s[0] == '"' {
        lemma_strip_front_no_quote(s.drop_first());
    }
}

proof fn lemma_strip_back_no_quote(s: Seq<char>)
    ensures
        strip_back_quotes(s).len() > 0 ==> strip_back_quotes(s).last() != '"',
    decreases s.len(),
{
    if s.len() > 0 && s.last() == '"' {
        lemma_strip_back_no_quote(s.drop_last());
    }
}

proof fn lemma_strip_back_prefix(s: Seq<char>)
    ensures
        strip_back_quotes(s).len() <= s.len(),
        strip_back_quotes(s) == s.subrange(0, strip_back_quotes(s).len() as int),
    decreases s.len(),
{
    if s.len() > 0 && s.last() == '"' {
        lemma_strip_back_prefix(s.drop_last());
        assert(s.drop_last().subrange(0, strip_back_quotes(s).len() as int) =~= s.subrange(
            0,
            strip_back_quotes(s).len() as int,
        ));
    } else {
        assert(s.subrange(0, s.len() as int) =~= s);
    }
}

/// Stripping quotes once strips them for good: a value that has already had
/// its surrounding quote characters removed parses identically the second
/// time around.
pub proof fn lemma_strip_quotes_idempotent(v: Seq<char>)
    ensures
        strip_quotes(strip_quotes(v)) == strip_quotes(v),
{
    let x = strip_front_quotes(v);
    let y = strip_back_quotes(x);
    lemma_strip_front_no_quote(v);
    lemma_strip_back_no_quote(x);
    lemma_strip_back_prefix(x);
    if y.len() > 0 {
        assert(y[0] == x.subrange(0, y.len() as int)[0]);
        assert(strip_front_quotes(y) == y);
    }
}

proof fn lemma_strip_trailing_quote(v: Seq<char>)
    ensures
        strip_quotes(v + seq!['"']) == strip_quotes(v),
    decreases v.len(),
{
    let q = seq!['"'];
    if v.len() == 0 {
        assert((v + q) =~= q);
        assert(q.drop_first() =~= Seq::<char>::empty());
        assert(strip_front_quotes(q) == strip_front_quotes(Seq::<char>::empty()));
        assert(strip_front_quotes(Seq::<char>::empty()) == Seq::<char>::empty());
        assert(strip_back_quotes(Seq::<char>::empty()) == Seq::<char>::empty());
        assert(strip_quotes(v + q) == Seq::<char>::empty());
        assert(strip_quotes(v) == Seq::<char>::empty());
    } else if v[0] == '"' {
        assert((v + q)[0] == '"');
        assert((v + q).drop_first() =~= v.drop_first() + q);
        assert(strip_front_quotes(v + q) == strip_front_quotes(v.drop_first() + q));
        assert(strip_front_quotes(v) == strip_front_quotes(v.drop_first()));
        lemma_strip_trailing_quote(v.drop_first());
    } else {
        assert((v + q)[0] == v[0]);
        assert(strip_front_quotes(v + q) == v + q);
        assert(strip_front_quotes(v) == v);
        assert((v + q).last() == '"');
        assert((v + q).drop_last() =~= v);
        assert(strip_back_quotes(v + q) == strip_back_quotes(v));
    }
}

/// A value with no surrounding quotes parses identically to one with them:
/// wrapping a value in one more pair of quote characters does not change
/// what quote-stripping yields.
pub proof fn lemma_strip_quotes_wrapped(v: Seq<char>)
    ensures
        strip_quotes(seq!['"'] + v + seq!['"']) == strip_quotes(v),
{
    let q = seq!['"'];
    let w = q + v + q;
    assert(w[0] == '"');
    assert(w.drop_first() =~= v + q);
    lemma_strip_trailing_quote(v);
}

} // verus!
