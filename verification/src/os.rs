//! The platform capability facade: one operation per identity fact.
//!
//! Facts that need only a native call ([`Os::username`], [`Os::realname`],
//! [`Os::hostname`], [`Os::arch`]) are complete here.  Facts that read a
//! system file or an environment variable take that text as a plain value —
//! the caller performs the read — and the extraction logic lives here with
//! an exact contract.  Beside each native-backed operation stands a `_from`
//! function that takes the native result as an argument and is verified for
//! every value of it.

use vstd::prelude::*;
use vstd::string::*;
use vstd::utf8::{decode_utf8, valid_utf8};

use crate::arch::{arch_of, classify_arch, Arch, ArchClass};
use crate::desktop::{classify_desktop, desktop_env_of, DesktopClass, DesktopEnv};
use crate::error::Error;
use crate::lang::lang_tags;
use crate::plist::{distro_xml, distro_xml_spec};
use crate::record::{record_value, record_value_spec};
use crate::sys::{decode_text, fetch_hostname, fetch_uname, lookup_effective_user};
use crate::text::{lemma_seg_len, opt_str_view, opt_string_view, seg_len, seg_pos};

verus! {

/// The capability interface for the running platform: the Unix
/// implementation, whose native lookups go through the user database, the
/// hostname syscall and the system-identification call.
pub struct Os;

/// What the device-name query extracts from machine-metadata text: the
/// pretty-hostname record, when the text was readable and carries one.
pub open spec fn devicename_spec(info: Option<Seq<char>>) -> Result<Seq<char>, ()> {
    match info {
        Some(t) => record_value_spec(t, "PRETTY_HOSTNAME"@, None),
        None => Err(()),
    }
}

/// What the distribution query extracts from OS-release text: the pretty
/// name, with the generic name as fallback key.
pub open spec fn distro_release_spec(text: Seq<char>) -> Result<Seq<char>, ()> {
    record_value_spec(text, "PRETTY_NAME"@, Some("NAME"@))
}

impl Os {
    /// The login name for a user-database record, [`Error::NotFound`] when
    /// no record exists, and the errno of a failed lookup.
    pub fn username_from(rec: Result<Option<(String, Vec<u8>)>, i32>) -> (r: Result<String, Error>)
        ensures
            rec matches Ok(Some(u)) ==> (r matches Ok(n) && n == u.0),
            rec matches Ok(None) ==> (r matches Err(e) && e is NotFound),
            rec matches Err(c) ==> (r matches Err(e) && e == Error::Os(c)),
    {
        match rec {
            Ok(Some((name, _))) => Ok(name),
            Ok(None) => Err(Error::NotFound),
            Err(c) => Err(Error::Os(c)),
        }
    }

    /// The real ("full") name for a user-database record: the gecos field's
    /// bytes decoded as UTF-8, [`Error::InvalidData`] when they are not
    /// valid text, and the record-less and errno failures as for
    /// [`Os::username_from`].
    pub fn realname_from(rec: Result<Option<(String, Vec<u8>)>, i32>) -> (r: Result<String, Error>)
        ensures
            rec matches Ok(Some(u)) ==> (valid_utf8(u.1@) ==> (r matches Ok(n) && n@
                == decode_utf8(u.1@))),
            rec matches Ok(Some(u)) ==> (!valid_utf8(u.1@) ==> (r matches Err(e) && e
                is InvalidData)),
            rec matches Ok(None) ==> (r matches Err(e) && e is NotFound),
            rec matches Err(c) ==> (r matches Err(e) && e == Error::Os(c)),
    {
        match rec {
            Ok(Some((_, gecos))) => match decode_text(gecos) {
                Some(full) => Ok(full),
                None => Err(Error::InvalidData),
            },
            Ok(None) => Err(Error::NotFound),
            Err(c) => Err(Error::Os(c)),
        }
    }

    /// The effective user's login name, from the user database.
    pub fn username() -> (r: Result<String, Error>)
        ensures
            r matches Err(e) ==> (e is NotFound || e is Os),
    {
        Os::username_from(lookup_effective_user())
    }

    /// The effective user's real name: the gecos field of their
    /// user-database record.
    pub fn realname() -> (r: Result<String, Error>)
        ensures
            r matches Err(e) ==> (e is NotFound || e is InvalidData || e is Os),
    {
        Os::realname_from(lookup_effective_user())
    }

    /// The hostname for a syscall outcome: the name itself,
    /// [`Error::InvalidData`] when it is not valid text, and the errno of a
    /// failed call.
    pub fn hostname_from(res: Result<Option<String>, i32>) -> (r: Result<String, Error>)
        ensures
            res matches Ok(Some(name)) ==> (r matches Ok(h) && h == name),
            res matches Ok(None) ==> (r matches Err(e) && e is InvalidData),
            res matches Err(c) ==> (r matches Err(e) && e == Error::Os(c)),
    {
        match res {
            Ok(Some(name)) => Ok(name),
            Ok(None) => Err(Error::InvalidData),
            Err(c) => Err(Error::Os(c)),
        }
    }

    /// The machine's network hostname, from the hostname syscall's bounded
    /// buffer: at most 255 usable bytes, so at most 255 characters.
    pub fn hostname() -> (r: Result<String, Error>)
        ensures
            r matches Ok(h) ==> h@.len() <= 255,
            r matches Err(e) ==> (e is InvalidData || e is Os),
    {
        Os::hostname_from(fetch_hostname())
    }

    /// The CPU architecture, classified from the system-identification
    /// call's machine field.
    pub fn arch() -> (r: Result<Arch, Error>)
        ensures
            r matches Err(e) ==> e is Os,
    {
        match fetch_uname() {
            Ok((machine, _)) => Ok(arch_of(machine.as_str())),
            Err(c) => Err(Error::Os(c)),
        }
    }

    /// The device name for given machine-metadata text and a given
    /// system-identification outcome: the pretty-hostname record wins; a
    /// missing file or key falls back to the node name; when both branches
    /// fail, the error chains both causes in order.
    pub fn devicename_from(info: Option<&str>, fallback: Result<(String, String), i32>) -> (r:
        Result<String, Error>)
        ensures
            devicename_spec(opt_str_view(info)) matches Ok(v) ==> (r matches Ok(s) && s@ == v),
            devicename_spec(opt_str_view(info)) is Err ==> (fallback matches Ok(u) ==> (r
                matches Ok(s) && s == u.1)),
            devicename_spec(opt_str_view(info)) is Err ==> (fallback matches Err(c) ==> (r
                matches Err(e) && e matches Error::Chain(first, second) && (info is Some
                ==> *first is Parse) && (info is None ==> *first is NotFound) && *second
                == Error::Os(c))),
    {
        let parsed: Result<String, Error> = match info {
            Some(t) => record_value(t, "PRETTY_HOSTNAME", None),
            None => Err(Error::NotFound),
        };
        match parsed {
            Ok(pretty) => Ok(pretty),
            Err(first) => match fallback {
                Ok((_, nodename)) => Ok(nodename),
                Err(c) => Err(Error::Chain(Box::new(first), Box::new(Error::Os(c)))),
            },
        }
    }

    /// The device (display) name: the pretty-hostname record of the
    /// machine-metadata text when present, else the system-identification
    /// call's node name; when both fail the error names both causes.
    pub fn devicename(machine_info: Option<String>) -> (r: Result<String, Error>)
        ensures
            devicename_spec(opt_string_view(machine_info)) matches Ok(v) ==> (r matches Ok(s) && s@
                == v),
    {
        let info: Option<&str> = match &machine_info {
            Some(text) => Some(text.as_str()),
            None => None,
        };
        Os::devicename_from(info, fetch_uname())
    }

    /// The node-identity record: the first line of the file's text, which
    /// must be non-empty.
    pub fn node_identity(text: &str) -> (r: Result<String, Error>)
        ensures
            seg_len(text@, '\n') > 0 ==> (r matches Ok(s) && s@ == text@.subrange(
                0,
                seg_len(text@, '\n') as int,
            )),
            seg_len(text@, '\n') == 0 ==> (r matches Err(e) && e is InvalidData),
    {
        let n = seg_pos(text, '\n');
        proof {
            lemma_seg_len(text@, '\n');
        }
        if n == 0 {
            Err(Error::InvalidData)
        } else {
            Ok(String::from_str(text.substring_char(0, n)))
        }
    }

    /// The distribution string for release-metadata text; text that could
    /// not be read reads as an absent record.
    pub fn distro(release: Option<&str>) -> (r: Result<String, Error>)
        ensures
            release matches Some(t) ==> (match distro_release_spec(t@) {
                Ok(v) => r matches Ok(s) && s@ == v,
                Err(_) => r matches Err(e) && e is Parse,
            }),
            release is None ==> (r matches Err(e) && e is NotFound),
    {
        match release {
            Some(text) => record_value(text, "PRETTY_NAME", Some("NAME")),
            None => Err(Error::NotFound),
        }
    }

    /// The distribution string for Apple platforms: the server-version
    /// property list wins over the system-version one; with neither file
    /// readable the record is absent.
    pub fn distro_from_plists(server: Option<String>, system: Option<String>) -> (r: Result<
        String,
        Error,
    >)
        ensures
            server matches Some(t) ==> (match distro_xml_spec(t@) {
                Ok(v) => r matches Ok(s) && s@ == v,
                Err(_) => r matches Err(e) && e is Parse,
            }),
            server is None ==> (system matches Some(t) ==> (match distro_xml_spec(t@) {
                Ok(v) => r matches Ok(s) && s@ == v,
                Err(_) => r matches Err(e) && e is Parse,
            })),
            server is None && system is None ==> (r matches Err(e) && e is NotFound),
    {
        match server {
            Some(data) => distro_xml(data),
            None => match system {
                Some(data) => distro_xml(data),
                None => Err(Error::NotFound),
            },
        }
    }

    /// The desktop environment for a session-variable value; an unset
    /// variable classifies as unknown, carrying the literal name `Unknown`.
    pub fn desktop_env(session: Option<&str>) -> (r: DesktopEnv)
        ensures
            session matches Some(s) ==> r@ == classify_desktop(s@),
            session is None ==> r@ == DesktopClass::Unknown("Unknown"@),
    {
        match session {
            Some(name) => desktop_env_of(name),
            None => DesktopEnv::Unknown(String::from_str("Unknown")),
        }
    }
}

/// Re-querying without an intervening change yields identical results: each
/// extractor and classifier is a function of its input alone, so any two
/// results that meet its contract for the same input are the same result.
/// The native-backed accessors make no such promise: the OS state they read
/// may change between two calls.
pub proof fn lemma_requery_identical(
    text: Seq<char>,
    primary: Seq<char>,
    fallback: Option<Seq<char>>,
    r1: Result<Seq<char>, ()>,
    r2: Result<Seq<char>, ()>,
    data: Seq<char>,
    x1: Result<Seq<char>, ()>,
    x2: Result<Seq<char>, ()>,
    session: Seq<char>,
    d1: DesktopClass,
    d2: DesktopClass,
    machine: Seq<char>,
    a1: ArchClass,
    a2: ArchClass,
    locale: Seq<char>,
    t1: Seq<Seq<char>>,
    t2: Seq<Seq<char>>,
)
    requires
        r1 == record_value_spec(text, primary, fallback),
        r2 == record_value_spec(text, primary, fallback),
        x1 == distro_xml_spec(data),
        x2 == distro_xml_spec(data),
        d1 == classify_desktop(session),
        d2 == classify_desktop(session),
        a1 == classify_arch(machine),
        a2 == classify_arch(machine),
        t1 == lang_tags(locale),
        t2 == lang_tags(locale),
    ensures
        r1 == r2,
        x1 == x2,
        d1 == d2,
        a1 == a2,
        t1 == t2,
{
}

} // verus!
