//! The native calls behind the facade, each wrapped in one trusted item.
//!
//! Every wrapper hands back plain values.  The user-database, hostname and
//! system-identification lookups read process-global OS state, so nothing is
//! promised of their results beyond their shape; the UTF-8 decoder's
//! behaviour is a function of its argument and is stated exactly.

use vstd::prelude::*;

verus! {

/// Relies on `nix::unistd::User::from_uid` (getpwuid_r) applied to
/// `nix::unistd::Uid::effective` (geteuid): the user-database record of the
/// effective user, `Ok(None)` when no record exists, or the OS errno.  The
/// record's login name and the raw bytes of its gecos ("full name") field
/// are handed back; nothing is promised of them, since the outcome depends
/// on the machine's user database.
#[verifier::external_body]
pub(crate) fn lookup_effective_user() -> (r: Result<Option<(String, Vec<u8>)>, i32>) {
    match nix::unistd::User::from_uid(nix::unistd::Uid::effective()) {
        Ok(Some(user)) => Ok(Some((user.name, user.gecos.into_bytes()))),
        Ok(None) => Ok(None),
        Err(errno) => Err(errno as i32),
    }
}

/// Relies on `nix::unistd::gethostname`, which fills a fixed 256-byte buffer
/// from the hostname syscall and cuts it at the first NUL.  `Ok(None)`
/// stands for a hostname that is not valid UTF-8 (`OsString::into_string`
/// refuses exactly those); nothing more is promised, since the outcome
/// depends on the machine.  The buffer bound is the one promise kept: a
/// name longer than 255 bytes cannot come back.
#[verifier::external_body]
pub(crate) fn fetch_hostname() -> (r: Result<Option<String>, i32>)
    ensures
        r matches Ok(Some(name)) ==> name@.len() <= 255,
{
    match nix::unistd::gethostname() {
        Ok(name) => Ok(name.into_string().ok()),
        Err(errno) => Err(errno as i32),
    }
}

/// Relies on `nix::sys::utsname::uname`: the system-identification record's
/// machine (hardware platform) and nodename (network name) fields, each cut
/// at its first NUL and decoded lossily, or the OS errno.  Nothing is
/// promised of the values, since the outcome depends on the machine.
#[verifier::external_body]
pub(crate) fn fetch_uname() -> (r: Result<(String, String), i32>) {
    match nix::sys::utsname::uname() {
        Ok(identity) => Ok((
            identity.machine().to_string_lossy().into_owned(),
            identity.nodename().to_string_lossy().into_owned(),
        )),
        Err(errno) => Err(errno as i32),
    }
}

/// Relies on `String::from_utf8`, whose documentation promises success
/// exactly on valid UTF-8 input, returning the string those bytes encode.
#[verifier::external_body]
pub(crate) fn decode_text(bytes: Vec<u8>) -> (r: Option<String>)
    ensures
        r is Some <==> vstd::utf8::valid_utf8(bytes@),
        r matches Some(s) ==> s@ == vstd::utf8::decode_utf8(bytes@),
{
    String::from_utf8(bytes).ok()
}

} // verus!
