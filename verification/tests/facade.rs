//! The capability facade: pure record combinators and live native queries.

use whoami::Error;
use whoami::Os;
use whoami::Platform;

#[test]
fn devicename_prefers_the_pretty_hostname_record() {
    let info = "PRETTY_HOSTNAME=\"Jane's Laptop\"\nDEPLOYMENT=production\n";
    let r = Os::devicename_from(Some(info), Ok(("x86_64".to_string(), "node1".to_string())));
    assert_eq!(r.unwrap(), "Jane's Laptop");
}

#[test]
fn devicename_falls_back_to_the_node_name() {
    let info = "DEPLOYMENT=production\n";
    let r = Os::devicename_from(Some(info), Ok(("x86_64".to_string(), "node1".to_string())));
    assert_eq!(r.unwrap(), "node1");
}

#[test]
fn devicename_missing_file_falls_back_to_the_node_name() {
    let r = Os::devicename_from(None, Ok(("x86_64".to_string(), "node1".to_string())));
    assert_eq!(r.unwrap(), "node1");
}

#[test]
fn devicename_error_references_both_causes() {
    let r = Os::devicename_from(Some("DEPLOYMENT=production\n"), Err(38));
    let e = r.unwrap_err();
    assert!(matches!(e, Error::Chain(..)));
    let m = e.message();
    assert!(m.contains("parsing failed"));
    assert!(m.contains("os error"));
}

#[test]
fn devicename_missing_file_error_references_both_causes() {
    let r = Os::devicename_from(None, Err(38));
    let m = r.unwrap_err().message();
    assert!(m.contains("missing record"));
    assert!(m.contains("os error"));
}

#[test]
fn node_identity_truncates_at_the_first_line_break() {
    let r = Os::node_identity("galileo\nsecond line\n");
    assert_eq!(r.unwrap(), "galileo");
}

#[test]
fn node_identity_empty_record_is_invalid() {
    assert!(matches!(Os::node_identity(""), Err(Error::InvalidData)));
    assert!(matches!(Os::node_identity("\nx"), Err(Error::InvalidData)));
}

#[test]
fn distro_extracts_the_pretty_name() {
    let release = "NAME=\"Foo\"\nPRETTY_NAME=\"Foo 10\"\n";
    assert_eq!(Os::distro(Some(release)).unwrap(), "Foo 10");
}

#[test]
fn distro_unreadable_release_file_is_not_found() {
    assert!(matches!(Os::distro(None), Err(Error::NotFound)));
}

#[test]
fn distro_plists_prefer_the_server_version() {
    let server = "<dict>\n<key>ProductName</key>\n<string>macOS Server</string>\n</dict>".to_string();
    let system = "<dict>\n<key>ProductName</key>\n<string>macOS</string>\n</dict>".to_string();
    let r = Os::distro_from_plists(Some(server), Some(system));
    assert_eq!(r.unwrap(), "macOS Server");
}

#[test]
fn distro_plists_fall_back_to_the_system_version() {
    let system = "<dict>\n<key>ProductName</key>\n<string>macOS</string>\n</dict>".to_string();
    let r = Os::distro_from_plists(None, Some(system));
    assert_eq!(r.unwrap(), "macOS");
}

#[test]
fn distro_plists_with_neither_file_are_not_found() {
    assert!(matches!(
        Os::distro_from_plists(None, None),
        Err(Error::NotFound)
    ));
}

#[test]
fn username_from_takes_the_login_name() {
    let rec = Ok(Some(("jane".to_string(), b"Jane Doe".to_vec())));
    assert_eq!(Os::username_from(rec).unwrap(), "jane");
}

#[test]
fn realname_from_decodes_the_gecos_field() {
    let rec = Ok(Some(("jane".to_string(), b"Jane Doe".to_vec())));
    assert_eq!(Os::realname_from(rec).unwrap(), "Jane Doe");
}

#[test]
fn realname_from_rejects_invalid_text() {
    let rec = Ok(Some(("jane".to_string(), vec![0xff, 0xfe, 0x4a])));
    assert!(matches!(Os::realname_from(rec), Err(Error::InvalidData)));
}

#[test]
fn absent_user_record_is_not_found() {
    assert!(matches!(Os::username_from(Ok(None)), Err(Error::NotFound)));
    assert!(matches!(Os::realname_from(Ok(None)), Err(Error::NotFound)));
}

#[test]
fn failed_user_lookup_reports_the_errno() {
    assert!(matches!(Os::username_from(Err(13)), Err(Error::Os(13))));
}

#[test]
fn hostname_from_passes_valid_names_through() {
    assert_eq!(Os::hostname_from(Ok(Some("host".to_string()))).unwrap(), "host");
    assert!(matches!(Os::hostname_from(Ok(None)), Err(Error::InvalidData)));
    assert!(matches!(Os::hostname_from(Err(1)), Err(Error::Os(1))));
}

#[test]
fn os_error_message_carries_the_code() {
    assert_eq!(Error::Os(38).message(), "os error 38");
    assert_eq!(Error::Os(0).message(), "os error 0");
    assert_eq!(Error::Os(-5).message(), "os error -5");
}

#[test]
fn chain_error_message_joins_both_causes() {
    let e = Error::Chain(Box::new(Error::NotFound), Box::new(Error::Os(2)));
    assert_eq!(e.message(), "missing record; os error 2");
}

#[test]
fn error_messages_are_distinct_per_kind() {
    let texts = [
        Error::NotFound.message(),
        Error::InvalidData.message(),
        Error::Parse.message(),
        Error::Os(2).message(),
    ];
    for i in 0..texts.len() {
        for j in 0..texts.len() {
            if i != j {
                assert_ne!(texts[i], texts[j]);
            }
        }
    }
}

#[test]
fn platform_of_this_build_is_linux() {
    assert_eq!(whoami::platform(), Platform::Linux);
}

#[test]
fn live_hostname_is_idempotent() {
    let a = Os::hostname();
    let b = Os::hostname();
    assert_eq!(a.ok(), b.ok());
}

#[test]
fn live_username_is_idempotent() {
    let a = Os::username();
    let b = Os::username();
    assert_eq!(a.ok(), b.ok());
}

#[test]
fn live_realname_matches_repeat_query() {
    let a = Os::realname();
    let b = Os::realname();
    assert_eq!(a.ok(), b.ok());
}

#[test]
fn live_arch_is_idempotent() {
    let a = Os::arch();
    let b = Os::arch();
    assert_eq!(a.ok(), b.ok());
}

#[test]
fn live_devicename_is_idempotent() {
    let a = Os::devicename(None);
    let b = Os::devicename(None);
    assert_eq!(a.ok(), b.ok());
}
