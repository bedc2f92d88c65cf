//! The property-list fragment parser: extracts two named string fields from
//! a restricted XML dialect (Apple property lists), tolerant of missing keys.
//!
//! Only the first top-level `<dict>` block is read.  Within it a pending-key
//! state is tracked: a `<key>` line naming a known field arms that field (a
//! `ProductVersion` key stands in for `ProductUserVisibleVersion` only while
//! no version value has been captured), and the next `<string>` line fills
//! the armed field and disarms it.  After the scan the two fields are
//! combined: a name alone, a name and version joined by a space, a version
//! alone behind an unknown-name tag, or a parse failure when neither was
//! found.

use vstd::prelude::*;
use vstd::string::*;

use crate::error::Error;
use crate::text::{
    check_match, find_sub, find_sub_pos, lemma_find_sub, lemma_seg_len, match_at, opt_string_view,
    seg_len, seg_pos, str_eq, strip_back_pat, strip_back_pat_exec, trim_ws, trim_ws_exec,
};

verus! {

/// The scan state: the two captured fields and the two "value armed" flags.
pub struct PlistAcc {
    pub name: Option<Seq<char>>,
    pub ver: Option<Seq<char>>,
    pub arm_name: bool,
    pub arm_ver: bool,
}

/// The state before any line has been read.
pub open spec fn empty_acc() -> PlistAcc {
    PlistAcc { name: None, ver: None, arm_name: false, arm_ver: false }
}

/// How one (untrimmed) line transforms the scan state.
pub open spec fn plist_line(acc: PlistAcc, raw: Seq<char>) -> PlistAcc {
    let t = trim_ws(raw);
    if match_at(t, "<key>"@, 0) {
        let keyname = strip_back_pat(t.subrange("<key>"@.len() as int, t.len() as int), "</key>"@);
        if keyname == "ProductName"@ {
            PlistAcc { name: acc.name, ver: acc.ver, arm_name: true, arm_ver: acc.arm_ver }
        } else if keyname == "ProductUserVisibleVersion"@ {
            PlistAcc { name: acc.name, ver: acc.ver, arm_name: acc.arm_name, arm_ver: true }
        } else if keyname == "ProductVersion"@ {
            if acc.ver is None {
                PlistAcc { name: acc.name, ver: acc.ver, arm_name: acc.arm_name, arm_ver: true }
            } else {
                acc
            }
        } else {
            acc
        }
    } else if match_at(t, "<string>"@, 0) {
        let value = strip_back_pat(
            t.subrange("<string>"@.len() as int, t.len() as int),
            "</string>"@,
        );
        if acc.arm_name {
            PlistAcc { name: Some(value), ver: acc.ver, arm_name: false, arm_ver: acc.arm_ver }
        } else if acc.arm_ver {
            PlistAcc { name: acc.name, ver: Some(value), arm_name: acc.arm_name, arm_ver: false }
        } else {
            acc
        }
    } else {
        acc
    }
}

/// The state after scanning every line of `s`, starting from `acc`.
pub open spec fn plist_scan(s: Seq<char>, acc: PlistAcc) -> PlistAcc
    decreases s.len(),
{
    let n = seg_len(s, '\n');
    if n >= s.len() {
        plist_line(acc, s)
    } else {
        plist_scan(s.subrange(n as int + 1, s.len() as int), plist_line(acc, s.subrange(0, n as int)))
    }
}

/// The text between the first `<dict>` marker and the first `</dict>`
/// marker, when both are present in that order.
pub open spec fn dict_region(data: Seq<char>) -> Option<Seq<char>> {
    match find_sub(data, "<dict>"@) {
        Some(st) => match find_sub(data, "</dict>"@) {
            Some(en) => if st + "<dict>"@.len() <= en {
                Some(data.subrange(st as int + "<dict>"@.len() as int, en as int))
            } else {
                None
            },
            None => None,
        },
        None => None,
    }
}

/// What [`distro_xml`] returns, as a function of the input text.
pub open spec fn distro_xml_spec(data: Seq<char>) -> Result<Seq<char>, ()> {
    let acc = match dict_region(data) {
        Some(region) => plist_scan(region, empty_acc()),
        None => empty_acc(),
    };
    match acc.name {
        Some(n) => match acc.ver {
            Some(v) => Ok(n + " "@ + v),
            None => Ok(n),
        },
        None => match acc.ver {
            Some(v) => Ok("Mac OS (Unknown) "@ + v),
            None => Err(()),
        },
    }
}

/// The view of the executable scan state.
pub open spec fn acc_view(
    name: Option<String>,
    ver: Option<String>,
    arm_name: bool,
    arm_ver: bool,
) -> PlistAcc {
    PlistAcc {
        name: opt_string_view(name),
        ver: opt_string_view(ver),
        arm_name: arm_name,
        arm_ver: arm_ver,
    }
}

fn plist_line_exec(
    name: Option<String>,
    ver: Option<String>,
    arm_name: bool,
    arm_ver: bool,
    raw: &str,
) -> (r: (Option<String>, Option<String>, bool, bool))
    ensures
        ({
            let acc = plist_line(acc_view(name, ver, arm_name, arm_ver), raw@);
            opt_string_view(r.0) == acc.name && opt_string_view(r.1) == acc.ver && r.2
                == acc.arm_name && r.3 == acc.arm_ver
        }),
{
    let t = trim_ws_exec(raw);
    let tlen = t.unicode_len();
    if check_match(t, "<key>", 0) {
        let klen = "<key>".unicode_len();
        let keyname = strip_back_pat_exec(t.substring_char(klen, tlen), "</key>");
        if str_eq(keyname, "ProductName") {
            (name, ver, true, arm_ver)
        } else if str_eq(keyname, "ProductUserVisibleVersion") {
            (name, ver, arm_name, true)
        } else if str_eq(keyname, "ProductVersion") {
            if ver.is_none() {
                (name, ver, arm_name, true)
            } else {
                (name, ver, arm_name, arm_ver)
            }
        } else {
            (name, ver, arm_name, arm_ver)
        }
    } else if check_match(t, "<string>", 0) {
        let slen = "<string>".unicode_len();
        let value = strip_back_pat_exec(t.substring_char(slen, tlen), "</string>");
        if arm_name {
            (Some(String::from_str(value)), ver, false, arm_ver)
        } else if arm_ver {
            (name, Some(String::from_str(value)), arm_name, false)
        } else {
            (name, ver, arm_name, arm_ver)
        }
    } else {
        (name, ver, arm_name, arm_ver)
    }
}

fn plist_scan_exec(
    s: &str,
    name: Option<String>,
    ver: Option<String>,
    arm_name: bool,
    arm_ver: bool,
) -> (r: (Option<String>, Option<String>))
    ensures
        ({
            let acc = plist_scan(s@, acc_view(name, ver, arm_name, arm_ver));
            opt_string_view(r.0) == acc.name && opt_string_view(r.1) == acc.ver
        }),
    decreases s@.len(),
{
    let slen = s.unicode_len();
    let n = seg_pos(s, '\n');
    proof {
        lemma_seg_len(s@, '\n');
    }
    if n >= slen {
        let (name, ver, _, _) = plist_line_exec(name, ver, arm_name, arm_ver, s);
        (name, ver)
    } else {
        let line = s.substring_char(0, n);
        let (name, ver, arm_name, arm_ver) = plist_line_exec(name, ver, arm_name, arm_ver, line);
        let rest = s.substring_char(n + 1, slen);
        plist_scan_exec(rest, name, ver, arm_name, arm_ver)
    }
}

/// Combine a server- or system-version property-list fragment into one
/// distribution string: product name and user-visible version when both are
/// present, the name alone, or the version behind an unknown-name tag;
/// [`Error::Parse`] when the fragment holds neither field.
pub fn distro_xml(data: String) -> (r: Result<String, Error>)
    ensures
        match distro_xml_spec(data@) {
            Ok(v) => r matches Ok(s) && s@ == v,
            Err(_) => r matches Err(e) && e is Parse,
        },
{
    let s = data.as_str();
    let slen = s.unicode_len();
    let start = find_sub_pos(s, "<dict>");
    let endp = find_sub_pos(s, "</dict>");
    proof {
        lemma_find_sub(s@, "<dict>"@);
        lemma_find_sub(s@, "</dict>"@);
    }
    let mut name: Option<String> = None;
    let mut ver: Option<String> = None;
    if let Some(st) = start {
        if let Some(en) = endp {
            let dlen = "<dict>".unicode_len();
            if st + dlen <= en {
                let region = s.substring_char(st + dlen, en);
                let (n, v) = plist_scan_exec(region, None, None, false, false);
                name = n;
                ver = v;
            }
        }
    }
    match name {
        Some(n) => match ver {
            Some(v) => {
                let mut out = n;
                out.append(" ");
                out.append(v.as_str());
                Ok(out)
            },
            None => Ok(n),
        },
        None => match ver {
            Some(v) => {
                let mut out = String::from_str("Mac OS (Unknown) ");
                out.append(v.as_str());
                Ok(out)
            },
            None => Err(Error::Parse),
        },
    }
}

} // verus!
