use theme_manager::clock::TimeSpec;
use theme_manager::config::Config;
use theme_manager::span::TimeSpan;
use theme_manager::theme::{Theme, ThemeSpec};

fn spec_of(flavour: &str) -> ThemeSpec {
    ThemeSpec {
        desktop: format!("{flavour}-desktop"),
        mouse: format!("{flavour}-mouse"),
        controls: format!("{flavour}-controls"),
        icons: format!("{flavour}-icons"),
        borders: format!("{flavour}-borders"),
        wallpaper: format!("/pictures/{flavour}.jpg"),
        kitty: None,
    }
}

fn theme(name: &str, flavour: &str, span: Option<(&str, &str)>) -> Theme {
    Theme {
        name: name.to_string(),
        spec: spec_of(flavour),
        span: span.map(|(start, stop)| {
            TimeSpan::new(TimeSpec::parse(start).unwrap(), TimeSpec::parse(stop).unwrap())
        }),
    }
}

fn day_and_night() -> Config {
    Config::new(
        vec![theme("night", "dark", Some(("20:00", "06:00"))), theme("day", "light", Some(("06:00", "20:00")))],
        None,
    )
}

#[test]
fn lookup_by_name_finds_the_theme() {
    let cfg = day_and_night();
    assert_eq!(cfg.theme_for_name("day").unwrap().spec.desktop, "light-desktop");
    assert_eq!(cfg.theme_for_name("night").unwrap().spec.desktop, "dark-desktop");
    assert!(cfg.theme_for_name("dusk").is_none());
    assert!(cfg.theme_for_name("").is_none());
}

#[test]
fn lookup_by_name_is_case_sensitive() {
    let cfg = day_and_night();
    assert!(cfg.theme_for_name("Day").is_none());
    assert!(cfg.theme_for_name("NIGHT").is_none());
    assert!(cfg.theme_for_name("day ").is_none());
    assert!(cfg.theme_for_name("da").is_none());
    let cfg = Config::new(vec![theme("Solarized", "upper", None), theme("solarized", "lower", None)], None);
    assert_eq!(cfg.theme_for_name("solarized").unwrap().spec.desktop, "lower-desktop");
    assert_eq!(cfg.theme_for_name("Solarized").unwrap().spec.desktop, "upper-desktop");
}

#[test]
fn lookup_by_name_takes_the_first_of_duplicates() {
    let cfg = Config::new(
        vec![theme("other", "zero", None), theme("twin", "first", None), theme("twin", "second", None), theme("twin", "third", None)],
        None,
    );
    let found = cfg.theme_for_name("twin").unwrap();
    assert_eq!(found.spec.desktop, "first-desktop");
    assert!(std::ptr::eq(found, &cfg.themes()[1]));
}

#[test]
fn lookup_by_name_in_an_empty_catalog_finds_nothing() {
    let cfg = Config::new(Vec::new(), Some("day".to_string()));
    assert!(cfg.theme_for_name("day").is_none());
    assert!(cfg.theme_for_time(TimeSpec::new(12, 0)).is_none());
}

#[test]
fn lookup_by_time_finds_the_covering_theme() {
    let cfg = day_and_night();
    assert_eq!(cfg.theme_for_time(TimeSpec::new(21, 0)).unwrap().name, "night");
    assert_eq!(cfg.theme_for_time(TimeSpec::new(5, 59)).unwrap().name, "night");
    assert_eq!(cfg.theme_for_time(TimeSpec::new(6, 0)).unwrap().name, "day");
    assert_eq!(cfg.theme_for_time(TimeSpec::new(19, 59)).unwrap().name, "day");
    assert_eq!(cfg.theme_for_time(TimeSpec::new(20, 0)).unwrap().name, "night");
}

#[test]
fn lookup_by_time_takes_the_first_of_overlapping_windows() {
    let cfg = Config::new(
        vec![
            theme("plain", "plain", None),
            theme("lunch", "lunch", Some(("12:00", "13:00"))),
            theme("work", "work", Some(("09:00", "17:00"))),
            theme("always", "always", Some(("00:00", "23:59"))),
        ],
        None,
    );
    assert_eq!(cfg.theme_for_time(TimeSpec::new(12, 30)).unwrap().name, "lunch");
    assert_eq!(cfg.theme_for_time(TimeSpec::new(13, 0)).unwrap().name, "work");
    assert_eq!(cfg.theme_for_time(TimeSpec::new(18, 0)).unwrap().name, "always");
    assert!(cfg.theme_for_time(TimeSpec::new(23, 59)).is_none());
}

#[test]
fn lookup_by_time_passes_over_themes_without_a_window() {
    let cfg = Config::new(vec![theme("plain", "plain", None), theme("other", "other", None)], None);
    for hour in 0..24u32 {
        assert!(cfg.theme_for_time(TimeSpec::new(hour, 0)).is_none());
    }
    assert_eq!(cfg.theme_for_name("plain").unwrap().name, "plain");
}

#[test]
fn default_theme_is_never_consulted() {
    let cfg = Config::new(vec![theme("day", "light", Some(("06:00", "20:00")))], Some("day".to_string()));
    assert!(cfg.theme_for_time(TimeSpec::new(22, 0)).is_none());
    assert!(cfg.theme_for_name("evening").is_none());
}

#[test]
fn catalog_keeps_declaration_order() {
    let cfg = day_and_night();
    let names: Vec<&str> = cfg.themes().iter().map(|t| t.name.as_str()).collect();
    assert_eq!(names, vec!["night", "day"]);
}

#[test]
fn default_name_is_kept() {
    let cfg = Config::new(Vec::new(), Some("day".to_string()));
    assert_eq!(cfg.default_name(), Some(&"day".to_string()));
    assert_eq!(day_and_night().default_name(), None);
}
