use std::path::Path;

use latchnott::configuration::{
    default_data_dir_under, load_from_raw, ConfigurationError, RawConfiguration, DEFAULT_SHORTCUT,
};

fn raw_from_toml(contents: &str) -> RawConfiguration {
    let table: toml::Table = contents.parse().expect("test configuration should be TOML");
    let value = |section: &str, key: &str| -> Option<String> {
        table
            .get(section)
            .and_then(|v| v.as_table())
            .and_then(|t| t.get(key))
            .and_then(|v| v.as_str())
            .map(|s| s.to_owned())
    };
    RawConfiguration {
        shortcut: value("hotkey", "shortcut"),
        data_dir: value("storage", "data_dir"),
        font_family: value("ui", "font_family"),
    }
}

fn default_dir() -> Result<String, ConfigurationError> {
    Ok(default_data_dir_under(r"C:\Users\Test\AppData\Roaming"))
}

#[test]
fn uses_defaults_for_empty_configuration() {
    let configuration = load_from_raw(raw_from_toml(""), r"C:\Latchnott", default_dir())
        .expect("empty configuration should be valid");

    assert_eq!(configuration.shortcut(), DEFAULT_SHORTCUT);
    assert_eq!(
        Path::new(configuration.data_dir()),
        Path::new(r"C:\Users\Test\AppData\Roaming\Latchnott\data")
    );
    assert_eq!(configuration.font_family(), None);
}

#[test]
fn parses_explicit_configuration() {
    let contents = r#"
[hotkey]
shortcut = "Ctrl+Shift+Alt+N"

[storage]
data_dir = "storage"

[ui]
font_family = "Segoe UI"
"#;

    let configuration = load_from_raw(raw_from_toml(contents), r"C:\Latchnott", default_dir())
        .expect("valid configuration should parse");

    assert_eq!(configuration.shortcut(), "Ctrl+Shift+Alt+N");
    assert_eq!(Path::new(configuration.data_dir()), Path::new(r"C:\Latchnott\storage"));
    assert_eq!(configuration.font_family(), Some("Segoe UI"));
}

#[test]
fn preserves_absolute_data_dir() {
    let contents = r#"
[storage]
data_dir = 'D:\LatchnottData'
"#;

    let configuration = load_from_raw(raw_from_toml(contents), r"C:\Latchnott", default_dir())
        .expect("valid absolute data_dir should parse");

    assert_eq!(Path::new(configuration.data_dir()), Path::new(r"D:\LatchnottData"));
}

#[test]
fn rejects_empty_shortcut() {
    let contents = r#"
[hotkey]
shortcut = ""
"#;

    let error = load_from_raw(raw_from_toml(contents), r"C:\Latchnott", default_dir())
        .expect_err("empty shortcut should be rejected");

    assert_eq!(error.to_string(), "hotkey.shortcut must not be empty");
}

#[test]
fn rejects_empty_data_dir() {
    let contents = r#"
[storage]
data_dir = ""
"#;

    let error = load_from_raw(raw_from_toml(contents), r"C:\Latchnott", default_dir())
        .expect_err("empty data_dir should be rejected");

    assert_eq!(error.to_string(), "storage.data_dir must not be empty");
}

#[test]
fn rejects_empty_font_family_when_specified() {
    let contents = r#"
[ui]
font_family = "   "
"#;

    let error = load_from_raw(raw_from_toml(contents), r"C:\Latchnott", default_dir())
        .expect_err("empty font family should be rejected");

    assert_eq!(
        error.to_string(),
        "ui.font_family must not be empty when specified"
    );
}

#[test]
fn relative_data_dir_is_not_based_on_current_working_directory() {
    let configuration_directory = r"D:\Configuration";

    let contents = r#"
[storage]
data_dir = "data"
"#;

    let configuration = load_from_raw(raw_from_toml(contents), configuration_directory, default_dir())
        .expect("valid configuration should parse");

    assert_eq!(
        Path::new(configuration.data_dir()),
        Path::new(r"D:\Configuration\data")
    );
}

#[test]
fn trims_font_family() {
    let contents = r#"
[ui]
font_family = "  Segoe UI  "
"#;

    let configuration = load_from_raw(raw_from_toml(contents), r"C:\Latchnott", default_dir())
        .expect("valid configuration should parse");

    assert_eq!(configuration.font_family(), Some("Segoe UI"));
}

#[test]
fn missing_default_data_dir_is_reported_only_when_needed() {
    let missing = || Err(ConfigurationError::new("APPDATA is not available; cannot determine default data_dir".to_owned()));

    let error = load_from_raw(raw_from_toml(""), r"C:\Latchnott", missing())
        .expect_err("no data directory at all should be rejected");
    assert_eq!(
        error.to_string(),
        "APPDATA is not available; cannot determine default data_dir"
    );

    let configured = load_from_raw(
        raw_from_toml("[storage]\ndata_dir = 'notes'\n"),
        r"C:\Latchnott",
        missing(),
    )
    .expect("a configured data directory needs no default");
    assert_eq!(configured.data_dir(), r"C:\Latchnott\notes");
}

#[test]
fn shortcut_check_comes_before_data_dir_check() {
    let raw = RawConfiguration {
        shortcut: Some(" \t".to_owned()),
        data_dir: Some(String::new()),
        font_family: Some(String::new()),
    };

    let error = load_from_raw(raw, r"C:\Latchnott", default_dir()).expect_err("invalid");
    assert_eq!(error.to_string(), "hotkey.shortcut must not be empty");
}

#[test]
fn configuration_accepts_any_non_blank_shortcut() {
    let raw = RawConfiguration {
        shortcut: Some("Ctrl".to_owned()),
        data_dir: None,
        font_family: None,
    };

    let configuration = load_from_raw(raw, r"C:\Latchnott", default_dir()).expect("not blank");
    assert_eq!(configuration.shortcut(), "Ctrl");
}

#[test]
fn missing_configuration_uses_defaults() {
    let missing = RawConfiguration {
        shortcut: None,
        data_dir: None,
        font_family: None,
    };

    let configuration = load_from_raw(missing, r"C:\Latchnott", default_dir())
        .expect("missing configuration should fall back to defaults");

    assert_eq!(configuration.shortcut(), DEFAULT_SHORTCUT);
    assert_eq!(configuration.font_family(), None);
}
