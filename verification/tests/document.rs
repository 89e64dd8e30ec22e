use cargo_verison::document::ManifestDocument;
use cargo_verison::error::VerisonError;
use cargo_verison::manifest::{find_declared_version, locate, resolve};

const STANDALONE: &str = "# a standalone package\n[package]\nname = \"demo\" # the name\nversion = \"1.2.3\" # the version\nedition = \"2021\"\n\n[dependencies]\nserde = \"1\"\n";

#[test]
fn document_round_trip_is_identity() {
    let document = ManifestDocument::parse(STANDALONE, false).unwrap();
    assert_eq!(document.token(), "\"1.2.3\"");
    assert_eq!(document.to_string(), STANDALONE);
}

#[test]
fn document_round_trip_keeps_unusual_layout() {
    for text in [
        "[package]\nversion='1.2.3'",
        "\u{feff}[package]\r\n\tversion\t=\t\"\"\"1.2.3\"\"\"\t# ünï\r\n",
        "[workspace.package]\nversion = \"0.1.0\"\n[package]\nversion = \"\\u0031.2.3\"\n\n\n",
    ] {
        let document = ManifestDocument::parse(text, false).unwrap();
        assert_eq!(document.to_string(), text);
    }
}

#[test]
fn document_rewrite_changes_only_the_value() {
    let mut document = ManifestDocument::parse(STANDALONE, false).unwrap();
    document.set_token(String::from("\"1.2.4\""));
    assert_eq!(document.token(), "\"1.2.4\"");
    assert_eq!(
        document.to_string(),
        "# a standalone package\n[package]\nname = \"demo\" # the name\nversion = \"1.2.4\" # the version\nedition = \"2021\"\n\n[dependencies]\nserde = \"1\"\n"
    );
}

#[test]
fn document_of_a_workspace() {
    let text = "[workspace]\nmembers = []\n[workspace.package]\nversion = \"3.2.1\"\n[package]\nversion = \"9.9.9\"\n";
    let mut document = ManifestDocument::parse(text, true).unwrap();
    assert_eq!(document.token(), "\"3.2.1\"");
    document.set_token(String::from("\"3.2.2\""));
    assert_eq!(
        document.to_string(),
        "[workspace]\nmembers = []\n[workspace.package]\nversion = \"3.2.2\"\n[package]\nversion = \"9.9.9\"\n"
    );
}

#[test]
fn document_failures() {
    assert!(matches!(
        ManifestDocument::parse("version = ", false),
        Err(VerisonError::TomlEdit(_))
    ));
    assert!(matches!(
        ManifestDocument::parse("[package]\nname = \"x\"\n", false),
        Err(VerisonError::Schema(_))
    ));
    assert!(matches!(
        ManifestDocument::parse("[package]\nversion = 1.0\n", false),
        Err(VerisonError::Schema(_))
    ));
    assert!(matches!(
        ManifestDocument::parse("[package.version]\nworkspace = true\n", false),
        Err(VerisonError::Schema(_))
    ));
    assert!(matches!(
        ManifestDocument::parse("[package]\nversion = \"1.2.3\"\n", true),
        Err(VerisonError::Schema(_))
    ));
}

#[test]
fn splitting_at_byte_ranges() {
    let text = "aé✓z";
    let document = ManifestDocument::split(text, 1, 3).unwrap();
    assert_eq!(document.token(), "é");
    assert_eq!(document.to_string(), text);
    let mut document = ManifestDocument::split(text, 3, 6).unwrap();
    assert_eq!(document.token(), "✓");
    document.set_token(String::from("--"));
    assert_eq!(document.to_string(), "aé--z");
    assert_eq!(ManifestDocument::split(text, 0, 0).unwrap().token(), "");
    assert_eq!(ManifestDocument::split(text, 7, 7).unwrap().to_string(), text);
    assert_eq!(ManifestDocument::split(text, 0, 7).unwrap().token(), text);
    assert!(ManifestDocument::split(text, 2, 3).is_none());
    assert!(ManifestDocument::split(text, 1, 4).is_none());
    assert!(ManifestDocument::split(text, 3, 1).is_none());
    assert!(ManifestDocument::split(text, 1, 8).is_none());
    assert!(ManifestDocument::split(text, 8, 9).is_none());
    assert!(ManifestDocument::split("", 0, 0).is_some());
}

#[test]
fn resolve_reads_the_version() {
    let version = resolve(STANDALONE, false).unwrap();
    assert_eq!(version.to_string(), "1.2.3");
    assert!(matches!(resolve(STANDALONE, true), Err(VerisonError::Schema(_))));
}

#[test]
fn the_declared_version_of_a_parsed_manifest() {
    let root: toml::Value =
        toml::from_str("[package]\nversion = \"1.2.3\"\n[workspace.package]\nversion = \"x\"\n")
            .unwrap();
    assert_eq!(find_declared_version(&root, false), Some("1.2.3"));
    assert_eq!(find_declared_version(&root, true), Some("x"));
    let root: toml::Value = toml::from_str("[workspace]\npackage = 1\n").unwrap();
    assert_eq!(find_declared_version(&root, false), None);
    assert_eq!(find_declared_version(&root, true), None);
    assert_eq!(find_declared_version(&toml::Value::Integer(3), false), None);
}

#[test]
fn the_manifest_is_located_by_its_fixed_name() {
    let location = locate(Some("tests/standalone"));
    assert_eq!(location.directory.as_deref(), Some("tests/standalone"));
    assert_eq!(location.file_name, "Cargo.toml");
    let location = locate(None);
    assert_eq!(location.directory, None);
    assert_eq!(location.file_name, "Cargo.toml");
}
