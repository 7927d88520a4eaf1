use std::io::Write;

use confload::{Settings, SettingsError};

/// Writes `content` into a fresh temporary `.toml` file and returns the
/// handle; the file lives until the handle is dropped.
fn write_config(content: &str) -> tempfile::NamedTempFile {
    let mut file = tempfile::Builder::new()
        .prefix("confload-test-")
        .suffix(".toml")
        .tempfile()
        .unwrap();
    file.write_all(content.as_bytes()).unwrap();
    file.flush().unwrap();
    file
}

/// The textual parent directory and file name of an absolute path.
fn split_path(path: &str) -> (String, String) {
    let cut = path.rfind('/').unwrap();
    (path[..cut].to_string(), path[cut + 1..].to_string())
}

const EXAMPLE: &str = "[section]\nname = \"hello\"\n\n[delist]\ndelist_db_file = \"./db/delist.db\"\n";

#[test]
fn construct_captures_dir_and_filename() {
    let file = write_config(EXAMPLE);
    let path = file.path().to_str().unwrap().to_string();
    let (dir, name) = split_path(&path);

    let settings = Settings::new(Some(&path), None).unwrap();
    assert_eq!(settings.config_dir, dir);
    assert_eq!(settings.config_filename, name);
    assert_eq!(settings.config_dir(), &dir);
}

#[test]
fn construct_end_to_end_example() {
    let file = write_config(EXAMPLE);
    let path = file.path().to_str().unwrap().to_string();
    let (dir, _) = split_path(&path);

    let settings = Settings::new(Some(&path), None).unwrap();
    assert_eq!(settings.config_dir, dir);
    assert_eq!(settings.get_string("section.name").unwrap(), "hello");
    assert_eq!(
        settings.get_path("delist.delist_db_file").unwrap(),
        format!("{dir}/db/delist.db")
    );
}

#[test]
fn construct_canonicalizes_the_directory() {
    let file = write_config(EXAMPLE);
    let path = file.path().to_str().unwrap().to_string();
    let (dir, name) = split_path(&path);
    let dotted = format!("{dir}/./{name}");

    let settings = Settings::new(Some(&dotted), None).unwrap();
    assert_eq!(settings.config_dir, dir);
    assert_eq!(settings.config_filename, name);
}

#[test]
fn construct_missing_file_is_not_found() {
    let missing = "/no/such/confload-dir/absent.toml";
    match Settings::new(Some(missing), None) {
        Err(SettingsError::NotFound(p)) => assert_eq!(p, missing),
        other => panic!("expected NotFound, got {other:?}"),
    }
}

#[test]
fn construct_without_default_is_env_error() {
    assert!(matches!(
        Settings::new(None, None),
        Err(SettingsError::EnvVar)
    ));
    assert!(matches!(
        Settings::new(None, Some("")),
        Err(SettingsError::EnvVar)
    ));
}

#[test]
fn construct_with_env_default() {
    let file = write_config(EXAMPLE);
    let path = file.path().to_str().unwrap().to_string();
    let (dir, name) = split_path(&path);

    let settings = Settings::new(None, Some(&path)).unwrap();
    assert_eq!(settings.config_dir, dir);
    assert_eq!(settings.config_filename, name);
    assert_eq!(settings.get_string("section.name").unwrap(), "hello");
}

#[test]
fn construct_unparseable_file_is_parse_error() {
    let file = write_config("not = = valid toml [");
    let path = file.path().to_str().unwrap().to_string();
    match Settings::new(Some(&path), None) {
        Err(SettingsError::Parse(_)) => {}
        other => panic!("expected Parse, got {other:?}"),
    }
}

#[test]
fn get_string_coerces_numbers() {
    let file = write_config("[server]\nport = 42\n");
    let path = file.path().to_str().unwrap().to_string();
    let settings = Settings::new(Some(&path), None).unwrap();
    assert_eq!(settings.get_string("server.port").unwrap(), "42");
}

#[test]
fn get_path_absolute_value_unchanged() {
    let file = write_config("[data]\ndb = \"/etc/data/file.db\"\n");
    let path = file.path().to_str().unwrap().to_string();
    let settings = Settings::new(Some(&path), None).unwrap();
    assert_eq!(settings.get_path("data.db").unwrap(), "/etc/data/file.db");
}

#[test]
fn get_path_relative_value_under_config_dir() {
    let file = write_config("[data]\nplain = \"data/file.db\"\ndotted = \"./data/file.db\"\n");
    let path = file.path().to_str().unwrap().to_string();
    let (dir, _) = split_path(&path);
    let settings = Settings::new(Some(&path), None).unwrap();
    let expected = format!("{dir}/data/file.db");
    assert_eq!(settings.get_path("data.plain").unwrap(), expected);
    assert_eq!(settings.get_path("data.dotted").unwrap(), expected);
}

#[test]
fn get_path_dot_value_is_accepted() {
    let file = write_config("[data]\nhere = \".\"\n");
    let path = file.path().to_str().unwrap().to_string();
    let (dir, _) = split_path(&path);
    let settings = Settings::new(Some(&path), None).unwrap();
    assert_eq!(settings.get_path("data.here").unwrap(), format!("{dir}/."));
}

#[test]
fn get_path_empty_value_is_rejected() {
    let file = write_config("[data]\ndb = \"\"\n");
    let path = file.path().to_str().unwrap().to_string();
    let settings = Settings::new(Some(&path), None).unwrap();
    match settings.get_path("data.db") {
        Err(SettingsError::EmptyValue(k)) => assert_eq!(k, "data.db"),
        other => panic!("expected EmptyValue, got {other:?}"),
    }
}

#[test]
fn get_path_missing_key() {
    let file = write_config(EXAMPLE);
    let path = file.path().to_str().unwrap().to_string();
    let settings = Settings::new(Some(&path), None).unwrap();
    match settings.get_path("no.such_key") {
        Err(SettingsError::MissingKey(k)) => assert_eq!(k, "no.such_key"),
        other => panic!("expected MissingKey, got {other:?}"),
    }
}

#[test]
fn get_string_missing_key() {
    let file = write_config(EXAMPLE);
    let path = file.path().to_str().unwrap().to_string();
    let settings = Settings::new(Some(&path), None).unwrap();
    assert!(matches!(
        settings.get_string("absent"),
        Err(SettingsError::MissingKey(_))
    ));
}

#[test]
fn get_path_table_value_is_wrong_type() {
    let file = write_config(EXAMPLE);
    let path = file.path().to_str().unwrap().to_string();
    let settings = Settings::new(Some(&path), None).unwrap();
    match settings.get_path("section") {
        Err(SettingsError::WrongType(k)) => assert_eq!(k, "section"),
        other => panic!("expected WrongType, got {other:?}"),
    }
}

#[test]
fn get_string_malformed_key_is_invalid() {
    let file = write_config(EXAMPLE);
    let path = file.path().to_str().unwrap().to_string();
    let settings = Settings::new(Some(&path), None).unwrap();
    assert!(matches!(
        settings.get_string("section..name"),
        Err(SettingsError::InvalidKey(_))
    ));
}
