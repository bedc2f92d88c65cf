//! Desktop-environment classification.
//!
//! A session name is matched case-insensitively against the known desktop
//! environments; anything unrecognized is preserved, never dropped, in the
//! open [`DesktopEnv::Unknown`] variant.

use vstd::prelude::*;
use vstd::string::*;

use crate::text::{lemma_eq_ci_symmetric, lemma_eq_ci_transitive, seq_eq_ci, str_eq_ci};

verus! {

/// The desktop environment a session name identifies.
#[derive(Debug, PartialEq, Eq)]
pub enum DesktopEnv {
    Aqua,
    Gnome,
    Lxde,
    Openbox,
    I3,
    Ubuntu,
    Kde,
    /// An unrecognized environment, carrying the raw name unchanged.
    Unknown(String),
}

/// The abstract value of a [`DesktopEnv`]: the same classification over the
/// raw name's view.
pub enum DesktopClass {
    Aqua,
    Gnome,
    Lxde,
    Openbox,
    I3,
    Ubuntu,
    Kde,
    Unknown(Seq<char>),
}

impl View for DesktopEnv {
    type V = DesktopClass;

    open spec fn view(&self) -> DesktopClass {
        match self {
            DesktopEnv::Aqua => DesktopClass::Aqua,
            DesktopEnv::Gnome => DesktopClass::Gnome,
            DesktopEnv::Lxde => DesktopClass::Lxde,
            DesktopEnv::Openbox => DesktopClass::Openbox,
            DesktopEnv::I3 => DesktopClass::I3,
            DesktopEnv::Ubuntu => DesktopClass::Ubuntu,
            DesktopEnv::Kde => DesktopClass::Kde,
            DesktopEnv::Unknown(s) => DesktopClass::Unknown(s@),
        }
    }
}

/// How a session name classifies, up to ASCII case.
pub open spec fn classify_desktop(s: Seq<char>) -> DesktopClass {
    if seq_eq_ci(s, "AQUA"@) {
        DesktopClass::Aqua
    } else if seq_eq_ci(s, "GNOME"@) {
        DesktopClass::Gnome
    } else if seq_eq_ci(s, "LXDE"@) {
        DesktopClass::Lxde
    } else if seq_eq_ci(s, "OPENBOX"@) {
        DesktopClass::Openbox
    } else if seq_eq_ci(s, "I3"@) {
        DesktopClass::I3
    } else if seq_eq_ci(s, "UBUNTU"@) {
        DesktopClass::Ubuntu
    } else if seq_eq_ci(s, "PLASMA5"@) {
        DesktopClass::Kde
    } else {
        DesktopClass::Unknown(s)
    }
}

/// Classify one desktop-session name, case-insensitively; an unrecognized
/// name is carried through unchanged.
pub fn desktop_env_of(name: &str) -> (r: DesktopEnv)
    ensures
        r@ == classify_desktop(name@),
{
    if str_eq_ci(name, "AQUA") {
        DesktopEnv::Aqua
    } else if str_eq_ci(name, "GNOME") {
        DesktopEnv::Gnome
    } else if str_eq_ci(name, "LXDE") {
        DesktopEnv::Lxde
    } else if str_eq_ci(name, "OPENBOX") {
        DesktopEnv::Openbox
    } else if str_eq_ci(name, "I3") {
        DesktopEnv::I3
    } else if str_eq_ci(name, "UBUNTU") {
        DesktopEnv::Ubuntu
    } else if str_eq_ci(name, "PLASMA5") {
        DesktopEnv::Kde
    } else {
        DesktopEnv::Unknown(String::from_str(name))
    }
}

proof fn lemma_ci_carries(a: Seq<char>, b: Seq<char>, l: Seq<char>)
    requires
        seq_eq_ci(a, b),
    ensures
        seq_eq_ci(a, l) <==> seq_eq_ci(b, l),
{
    if seq_eq_ci(a, l) {
        lemma_eq_ci_symmetric(a, b);
        lemma_eq_ci_transitive(b, a, l);
    }
    if seq_eq_ci(b, l) {
        lemma_eq_ci_transitive(a, b, l);
    }
}

/// Desktop-environment classification is case-insensitive: two session names
/// equal up to ASCII case are either recognized as the very same variant, or
/// both left unrecognized.
pub proof fn lemma_classify_desktop_case_insensitive(a: Seq<char>, b: Seq<char>)
    requires
        seq_eq_ci(a, b),
    ensures
        classify_desktop(a) is Unknown <==> classify_desktop(b) is Unknown,
        !(classify_desktop(a) is Unknown) ==> classify_desktop(a) == classify_desktop(b),
{
    lemma_ci_carries(a, b, "AQUA"@);
    lemma_ci_carries(a, b, "GNOME"@);
    lemma_ci_carries(a, b, "LXDE"@);
    lemma_ci_carries(a, b, "OPENBOX"@);
    lemma_ci_carries(a, b, "I3"@);
    lemma_ci_carries(a, b, "UBUNTU"@);
    lemma_ci_carries(a, b, "PLASMA5"@);
}

/// Classification is additive, never lossy: a session name that maps to no
/// known environment is preserved exactly in the `Unknown` variant.
pub proof fn lemma_classify_desktop_preserves_unknown(s: Seq<char>)
    ensures
        classify_desktop(s) matches DesktopClass::Unknown(u) ==> u == s,
{
}

} // verus!
