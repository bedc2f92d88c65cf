//! Architecture and desktop-environment classification.

use whoami::arch::arch_of;
use whoami::desktop::desktop_env_of;
use whoami::Arch;
use whoami::DesktopEnv;
use whoami::Os;

#[test]
fn x86_64_and_amd64_classify_identically() {
    assert_eq!(arch_of("x86_64"), Arch::X64);
    assert_eq!(arch_of("amd64"), Arch::X64);
    assert_eq!(arch_of("x86_64"), arch_of("amd64"));
}

#[test]
fn unrecognized_machine_string_is_preserved() {
    let a = arch_of("loongarch64");
    assert_eq!(a, Arch::Unknown("loongarch64".to_string()));
}

#[test]
fn arm_aliases_classify_to_arm64() {
    assert_eq!(arch_of("aarch64"), Arch::Arm64);
    assert_eq!(arch_of("arm64"), Arch::Arm64);
    assert_eq!(arch_of("armv8l"), Arch::Arm64);
}

#[test]
fn arch_table_spot_checks() {
    assert_eq!(arch_of("i686"), Arch::I686);
    assert_eq!(arch_of("ppc64le"), Arch::PowerPc64);
    assert_eq!(arch_of("powerpc64le"), Arch::PowerPc64Le);
    assert_eq!(arch_of("riscv64"), Arch::Riscv64);
    assert_eq!(arch_of("s390x"), Arch::S390x);
    assert_eq!(arch_of("sparc64"), Arch::Sparc64);
}

#[test]
fn arch_classification_is_case_sensitive() {
    assert_eq!(arch_of("X86_64"), Arch::Unknown("X86_64".to_string()));
}

#[test]
fn desktop_classification_is_case_insensitive() {
    assert_eq!(desktop_env_of("gnome"), DesktopEnv::Gnome);
    assert_eq!(desktop_env_of("GNOME"), DesktopEnv::Gnome);
    assert_eq!(desktop_env_of("Gnome"), DesktopEnv::Gnome);
}

#[test]
fn desktop_known_names_classify() {
    assert_eq!(desktop_env_of("aqua"), DesktopEnv::Aqua);
    assert_eq!(desktop_env_of("LXDE"), DesktopEnv::Lxde);
    assert_eq!(desktop_env_of("openbox"), DesktopEnv::Openbox);
    assert_eq!(desktop_env_of("i3"), DesktopEnv::I3);
    assert_eq!(desktop_env_of("ubuntu"), DesktopEnv::Ubuntu);
    assert_eq!(desktop_env_of("plasma5"), DesktopEnv::Kde);
}

#[test]
fn unrecognized_desktop_name_is_preserved() {
    assert_eq!(
        desktop_env_of("sway"),
        DesktopEnv::Unknown("sway".to_string())
    );
}

#[test]
fn unset_desktop_session_reads_unknown() {
    assert_eq!(
        Os::desktop_env(None),
        DesktopEnv::Unknown("Unknown".to_string())
    );
}

#[test]
fn desktop_env_facade_classifies_set_variable() {
    assert_eq!(Os::desktop_env(Some("plasma5")), DesktopEnv::Kde);
}

#[test]
fn classification_is_idempotent_across_calls() {
    assert_eq!(arch_of("mips64el"), arch_of("mips64el"));
    assert_eq!(desktop_env_of("i3"), desktop_env_of("i3"));
}
