//! The property-list fragment parser: name/version extraction and fallbacks.

use whoami::distro_xml;
use whoami::Error;

fn plist(body: &str) -> String {
    format!("<plist>\n<dict>\n{}</dict>\n</plist>\n", body)
}

#[test]
fn name_and_version_combine() {
    let data = plist(
        "\t<key>ProductName</key>\n\t<string>macOS</string>\n\t<key>ProductUserVisibleVersion</key>\n\t<string>14.0</string>\n",
    );
    assert_eq!(distro_xml(data).unwrap(), "macOS 14.0");
}

#[test]
fn version_alone_is_tagged_unknown() {
    let data = plist("\t<key>ProductVersion</key>\n\t<string>14.0</string>\n");
    assert_eq!(distro_xml(data).unwrap(), "Mac OS (Unknown) 14.0");
}

#[test]
fn neither_field_is_a_parse_error() {
    let data = plist("\t<key>Other</key>\n\t<string>x</string>\n");
    assert!(matches!(distro_xml(data), Err(Error::Parse)));
}

#[test]
fn name_alone_is_returned_bare() {
    let data = plist("\t<key>ProductName</key>\n\t<string>macOS</string>\n");
    assert_eq!(distro_xml(data).unwrap(), "macOS");
}

#[test]
fn product_version_does_not_override_user_visible_version() {
    let data = plist(
        "\t<key>ProductUserVisibleVersion</key>\n\t<string>14.0</string>\n\t<key>ProductVersion</key>\n\t<string>23A344</string>\n\t<key>ProductName</key>\n\t<string>macOS</string>\n",
    );
    assert_eq!(distro_xml(data).unwrap(), "macOS 14.0");
}

#[test]
fn missing_dict_block_is_a_parse_error() {
    let data = "<key>ProductName</key>\n<string>macOS</string>\n".to_string();
    assert!(matches!(distro_xml(data), Err(Error::Parse)));
}

#[test]
fn end_marker_before_start_marker_is_a_parse_error() {
    let data = "</dict><dict>".to_string();
    assert!(matches!(distro_xml(data), Err(Error::Parse)));
}

#[test]
fn unarmed_string_lines_are_ignored() {
    let data = plist(
        "\t<string>stray</string>\n\t<key>ProductName</key>\n\t<string>macOS</string>\n",
    );
    assert_eq!(distro_xml(data).unwrap(), "macOS");
}

#[test]
fn distro_xml_is_idempotent_across_calls() {
    let data = plist("\t<key>ProductName</key>\n\t<string>macOS</string>\n");
    let a = distro_xml(data.clone()).unwrap();
    let b = distro_xml(data).unwrap();
    assert_eq!(a, b);
}
