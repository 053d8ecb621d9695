use log::LevelFilter;
use theme_manager::logging::log_level_from_string;
use theme_manager::text::{same_bytes, same_text};
use theme_manager::theme::ColorSchemePreference;
use theme_manager::util::file_exists;

#[test]
fn log_levels_by_name() {
    assert_eq!(log_level_from_string("trace"), LevelFilter::Trace);
    assert_eq!(log_level_from_string("info"), LevelFilter::Info);
    assert_eq!(log_level_from_string("warn"), LevelFilter::Warn);
    assert_eq!(log_level_from_string("error"), LevelFilter::Error);
}

#[test]
fn unknown_log_level_is_info() {
    for name in ["", "debug", "off", "Trace", "WARN", "error ", "verbose", "warning"] {
        assert_eq!(log_level_from_string(name), LevelFilter::Info, "{name}");
    }
}

#[test]
fn colour_scheme_settings() {
    let dark: &str = (&ColorSchemePreference::Dark).into();
    let light: &str = <&str>::from(&ColorSchemePreference::Light);
    let default: &str = <&str>::from(&ColorSchemePreference::Default);
    assert_eq!(dark, "prefer-dark");
    assert_eq!(light, "prefer-light");
    assert_eq!(default, "default");
}

#[test]
fn catalog_path_must_name_a_file() {
    assert_eq!(file_exists("/etc/themes.json", true), Ok("/etc/themes.json".to_string()));
    assert_eq!(file_exists("/etc/themes.json", false), Err("Path to config file is invalid".to_string()));
    assert_eq!(file_exists("", false), Err("Path to config file is invalid".to_string()));
    assert_eq!(file_exists("", true), Ok(String::new()));
}

#[test]
fn texts_are_compared_exactly() {
    assert!(same_text("night", "night"));
    assert!(!same_text("night", "Night"));
    assert!(!same_text("night", "nigh"));
    assert!(!same_text("night", "night "));
    assert!(same_text("", ""));
    assert!(!same_text("", " "));
    assert!(same_text("zażółć", "zażółć"));
    assert!(!same_text("zażółć", "zazolc"));
    assert!(!same_text("e\u{301}", "\u{e9}"));
    assert!(same_bytes(b"abc", b"abc"));
    assert!(!same_bytes(b"abc", b"abd"));
    assert!(!same_bytes(b"abc", b"ab"));
    assert!(same_bytes(b"", b""));
}
