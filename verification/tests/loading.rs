use std::io::ErrorKind;
use theme_manager::cli::Args;
use theme_manager::command::Commands;
use theme_manager::config::{load_config, Config, ConfigError, LoadStep};

fn args(config: Option<&str>) -> Args {
    Args {
        config: config.map(|p| p.to_string()),
        verbose: false,
        log_file: None,
        log_level: "info".to_string(),
        command: Commands::Get,
    }
}

fn catalog(default: &str) -> Config {
    Config::new(Vec::new(), Some(default.to_string()))
}

fn unreadable() -> ConfigError {
    ConfigError::FileError("/etc/themes.json".to_string(), ErrorKind::PermissionDenied)
}

#[test]
fn named_file_is_read_first() {
    match load_config(&args(Some("/etc/themes.json")), None, None, None) {
        LoadStep::ReadGiven(path) => assert_eq!(path, "/etc/themes.json"),
        other => panic!("{other:?}"),
    }
}

#[test]
fn named_file_that_loads_ends_the_search() {
    match load_config(&args(Some("/etc/themes.json")), Some(Ok(catalog("given"))), None, None) {
        LoadStep::Done(Ok(cfg)) => assert_eq!(cfg, catalog("given")),
        other => panic!("{other:?}"),
    }
}

#[test]
fn named_file_that_fails_falls_back_to_the_default_place() {
    let a = args(Some("/etc/themes.json"));
    assert!(matches!(load_config(&a, Some(Err(unreadable())), None, None), LoadStep::LocateDefault));
    match load_config(&a, Some(Err(unreadable())), Some(Some("/home/u/.config/theme-manager/config.json".to_string())), None) {
        LoadStep::ReadDefault(path) => assert_eq!(path, "/home/u/.config/theme-manager/config.json"),
        other => panic!("{other:?}"),
    }
    match load_config(&a, Some(Err(unreadable())), Some(Some("x".to_string())), Some(Ok(catalog("fallback")))) {
        LoadStep::Done(Ok(cfg)) => assert_eq!(cfg, catalog("fallback")),
        other => panic!("{other:?}"),
    }
}

#[test]
fn without_a_named_file_the_default_place_decides() {
    let a = args(None);
    assert!(matches!(load_config(&a, None, None, None), LoadStep::LocateDefault));
    match load_config(&a, None, Some(Some("d.json".to_string())), None) {
        LoadStep::ReadDefault(path) => assert_eq!(path, "d.json"),
        other => panic!("{other:?}"),
    }
    match load_config(&a, None, Some(Some("d.json".to_string())), Some(Err(ConfigError::InvalidFormat("expected value at line 1 column 1".to_string())))) {
        LoadStep::Done(Err(ConfigError::InvalidFormat(why))) => assert_eq!(why, "expected value at line 1 column 1"),
        other => panic!("{other:?}"),
    }
}

#[test]
fn no_catalog_anywhere_is_a_not_found_error() {
    for a in [args(None), args(Some("/etc/themes.json"))] {
        let given = a.config.as_ref().map(|_| Err(unreadable()));
        match load_config(&a, given, Some(None), None) {
            LoadStep::Done(Err(ConfigError::FileError(path, kind))) => {
                assert_eq!(path, "(unknown)");
                assert_eq!(kind, ErrorKind::NotFound);
            }
            other => panic!("{other:?}"),
        }
    }
}

#[test]
fn failure_of_the_default_file_is_the_result() {
    let a = args(Some("/etc/themes.json"));
    let fallback = ConfigError::FileError("d.json".to_string(), ErrorKind::NotFound);
    match load_config(&a, Some(Err(unreadable())), Some(Some("d.json".to_string())), Some(Err(fallback))) {
        LoadStep::Done(Err(ConfigError::FileError(path, kind))) => {
            assert_eq!(path, "d.json");
            assert_eq!(kind, ErrorKind::NotFound);
        }
        other => panic!("{other:?}"),
    }
}

#[test]
fn config_error_messages() {
    assert_eq!(
        ConfigError::InvalidFormat("missing field `themes` at line 1 column 2".to_string()).message(),
        "Invalid format of config file: missing field `themes` at line 1 column 2"
    );
    assert_eq!(
        ConfigError::FileError("/etc/themes.json".to_string(), ErrorKind::NotFound).message(),
        format!("Failed to read config file: /etc/themes.json; {}", ErrorKind::NotFound)
    );
    assert_eq!(
        ConfigError::FileError("(unknown)".to_string(), ErrorKind::PermissionDenied).message(),
        format!("Failed to read config file: (unknown); {}", ErrorKind::PermissionDenied)
    );
    let copy = unreadable().clone();
    assert!(matches!(copy, ConfigError::FileError(path, ErrorKind::PermissionDenied) if path == "/etc/themes.json"));
}
