//! CPU architecture classification.
//!
//! The machine string that the system-identification call reports is matched
//! against a fixed table of known CPU architecture identifiers and their
//! common aliases; anything unrecognized is preserved, never dropped, in the
//! open [`Arch::Unknown`] variant.

use vstd::prelude::*;
use vstd::string::*;

use crate::text::str_eq;

verus! {

/// The CPU architecture family a machine string identifies.
#[derive(Debug, PartialEq, Eq)]
pub enum Arch {
    Arm64,
    ArmV5,
    ArmV6,
    ArmV7,
    I386,
    I586,
    I686,
    Mips,
    MipsEl,
    Mips64,
    Mips64El,
    PowerPc,
    PowerPc64,
    PowerPc64Le,
    Riscv32,
    Riscv64,
    S390x,
    Sparc,
    Sparc64,
    X64,
    /// An unrecognized architecture, carrying the raw machine string.
    Unknown(String),
}

/// The abstract value of an [`Arch`]: the same classification over the raw
/// machine string's view.
pub enum ArchClass {
    Arm64,
    ArmV5,
    ArmV6,
    ArmV7,
    I386,
    I586,
    I686,
    Mips,
    MipsEl,
    Mips64,
    Mips64El,
    PowerPc,
    PowerPc64,
    PowerPc64Le,
    Riscv32,
    Riscv64,
    S390x,
    Sparc,
    Sparc64,
    X64,
    Unknown(Seq<char>),
}

impl View for Arch {
    type V = ArchClass;

    open spec fn view(&self) -> ArchClass {
        match self {
            Arch::Arm64 => ArchClass::Arm64,
            Arch::ArmV5 => ArchClass::ArmV5,
            Arch::ArmV6 => ArchClass::ArmV6,
            Arch::ArmV7 => ArchClass::ArmV7,
            Arch::I386 => ArchClass::I386,
            Arch::I586 => ArchClass::I586,
            Arch::I686 => ArchClass::I686,
            Arch::Mips => ArchClass::Mips,
            Arch::MipsEl => ArchClass::MipsEl,
            Arch::Mips64 => ArchClass::Mips64,
            Arch::Mips64El => ArchClass::Mips64El,
            Arch::PowerPc => ArchClass::PowerPc,
            Arch::PowerPc64 => ArchClass::PowerPc64,
            Arch::PowerPc64Le => ArchClass::PowerPc64Le,
            Arch::Riscv32 => ArchClass::Riscv32,
            Arch::Riscv64 => ArchClass::Riscv64,
            Arch::S390x => ArchClass::S390x,
            Arch::Sparc => ArchClass::Sparc,
            Arch::Sparc64 => ArchClass::Sparc64,
            Arch::X64 => ArchClass::X64,
            Arch::Unknown(s) => ArchClass::Unknown(s@),
        }
    }
}

/// How a machine string classifies.  Aliases of one family map to one
/// variant; the table is case-sensitive, as the OS reports fixed spellings.
pub open spec fn classify_arch(m: Seq<char>) -> ArchClass {
    if m == "aarch64"@ || m == "arm64"@ || m == "aarch64_be"@ || m == "armv8b"@ || m == "armv8l"@ {
        ArchClass::Arm64
    } else if m == "armv5"@ {
        ArchClass::ArmV5
    } else if m == "armv6"@ || m == "arm"@ {
        ArchClass::ArmV6
    } else if m == "armv7"@ {
        ArchClass::ArmV7
    } else if m == "i386"@ {
        ArchClass::I386
    } else if m == "i586"@ {
        ArchClass::I586
    } else if m == "i686"@ || m == "i686-AT386"@ {
        ArchClass::I686
    } else if m == "mips"@ {
        ArchClass::Mips
    } else if m == "mipsel"@ {
        ArchClass::MipsEl
    } else if m == "mips64"@ {
        ArchClass::Mips64
    } else if m == "mips64el"@ {
        ArchClass::Mips64El
    } else if m == "powerpc"@ || m == "ppc"@ || m == "ppcle"@ {
        ArchClass::PowerPc
    } else if m == "powerpc64"@ || m == "ppc64"@ || m == "ppc64le"@ {
        ArchClass::PowerPc64
    } else if m == "powerpc64le"@ {
        ArchClass::PowerPc64Le
    } else if m == "riscv32"@ {
        ArchClass::Riscv32
    } else if m == "riscv64"@ {
        ArchClass::Riscv64
    } else if m == "s390x"@ {
        ArchClass::S390x
    } else if m == "sparc"@ {
        ArchClass::Sparc
    } else if m == "sparc64"@ {
        ArchClass::Sparc64
    } else if m == "x86_64"@ || m == "amd64"@ {
        ArchClass::X64
    } else {
        ArchClass::Unknown(m)
    }
}

/// Classify one machine string against the fixed table of known CPU
/// architecture identifiers; an unrecognized string is carried through
/// unchanged.
pub fn arch_of(machine: &str) -> (r: Arch)
    ensures
        r@ == classify_arch(machine@),
{
    if str_eq(machine, "aarch64") || str_eq(machine, "arm64") || str_eq(machine, "aarch64_be")
        || str_eq(machine, "armv8b") || str_eq(machine, "armv8l") {
        Arch::Arm64
    } else if str_eq(machine, "armv5") {
        Arch::ArmV5
    } else if str_eq(machine, "armv6") || str_eq(machine, "arm") {
        Arch::ArmV6
    } else if str_eq(machine, "armv7") {
        Arch::ArmV7
    } else if str_eq(machine, "i386") {
        Arch::I386
    } else if str_eq(machine, "i586") {
        Arch::I586
    } else if str_eq(machine, "i686") || str_eq(machine, "i686-AT386") {
        Arch::I686
    } else if str_eq(machine, "mips") {
        Arch::Mips
    } else if str_eq(machine, "mipsel") {
        Arch::MipsEl
    } else if str_eq(machine, "mips64") {
        Arch::Mips64
    } else if str_eq(machine, "mips64el") {
        Arch::Mips64El
    } else if str_eq(machine, "powerpc") || str_eq(machine, "ppc") || str_eq(machine, "ppcle") {
        Arch::PowerPc
    } else if str_eq(machine, "powerpc64") || str_eq(machine, "ppc64") || str_eq(
        machine,
        "ppc64le",
    ) {
        Arch::PowerPc64
    } else if str_eq(machine, "powerpc64le") {
        Arch::PowerPc64Le
    } else if str_eq(machine, "riscv32") {
        Arch::Riscv32
    } else if str_eq(machine, "riscv64") {
        Arch::Riscv64
    } else if str_eq(machine, "s390x") {
        Arch::S390x
    } else if str_eq(machine, "sparc") {
        Arch::Sparc
    } else if str_eq(machine, "sparc64") {
        Arch::Sparc64
    } else if str_eq(machine, "x86_64") || str_eq(machine, "amd64") {
        Arch::X64
    } else {
        Arch::Unknown(String::from_str(machine))
    }
}

/// Classification is additive, never lossy: a machine string that maps to
/// no known family is preserved exactly in the `Unknown` variant.
pub proof fn lemma_classify_arch_preserves_unknown(m: Seq<char>)
    ensures
        classify_arch(m) matches ArchClass::Unknown(u) ==> u == m,
{
}

} // verus!
