use sumup::manifest::parse_sdk_version;

#[test]
fn reads_sdk_version_from_package_manifest() {
    let manifest = "[package]\nname = \"sumup\"\nversion = \"1.2.3\"\n\n[dependencies]\n";
    assert_eq!(parse_sdk_version(manifest).as_deref(), Some("1.2.3"));
}

#[test]
fn ignores_versions_outside_the_package_table() {
    let manifest = "[dependencies]\nversion = \"9.9.9\"\n\n[package]\nname = \"sumup\"\nversion = \"0.4.0\"\n[features]\n";
    assert_eq!(parse_sdk_version(manifest).as_deref(), Some("0.4.0"));
}

#[test]
fn empty_version_gives_none() {
    let manifest = "[package]\nversion = \"\"\n[dependencies]\n";
    assert_eq!(parse_sdk_version(manifest), None);
}

#[test]
fn missing_version_gives_none() {
    let manifest = "[package]\nname = \"sumup\"\n[dependencies]\n";
    assert_eq!(parse_sdk_version(manifest), None);
}

#[test]
fn trims_indentation_and_carriage_returns() {
    let manifest = "[package]\r\n  version = \"2.0.1\"  \r\n[lib]\r\n";
    assert_eq!(parse_sdk_version(manifest).as_deref(), Some("2.0.1"));
}

#[test]
fn without_a_following_table_the_whole_manifest_is_searched() {
    let manifest = "version = \"0.0.1\"\n[package]\nversion = \"3.0.0\"\n";
    assert_eq!(parse_sdk_version(manifest).as_deref(), Some("0.0.1"));
}

#[test]
fn unquoted_versions_are_read_as_they_stand() {
    let manifest = "[package]\nversion = 5\n[x]\n";
    assert_eq!(parse_sdk_version(manifest).as_deref(), Some("5"));
}
