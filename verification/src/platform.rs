//! Platform classification.
//!
//! Which operating-system family a build serves is settled when the crate is
//! compiled, not by a runtime query; this build is the Unix implementation
//! for Linux-family systems.

use vstd::prelude::*;

verus! {

/// The operating-system family a build of this crate targets.
#[derive(Debug, PartialEq, Eq, Structural)]
pub enum Platform {
    Linux,
    MacOS,
    Bsd,
    Illumos,
}

/// The platform this build serves.  No runtime query is made: the answer is
/// a property of the build itself.
pub fn platform() -> (r: Platform)
    ensures
        r == Platform::Linux,
{
    Platform::Linux
}

} // verus!
