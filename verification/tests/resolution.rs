use theme_manager::cli::Args;
use theme_manager::clock::TimeSpec;
use theme_manager::command::Commands;
use theme_manager::config::Config;
use theme_manager::handlers::{
    handle_cmd, handle_edit_cmd, handle_lock_cmd, handle_set_cmd, handle_unlock_cmd, maybe_lock_or_unlock,
    open_editor, Decision, EditFailure, EditStep, Known, LockAction, Resolution, SetStep, Task,
};
use theme_manager::span::TimeSpan;
use theme_manager::theme::{Theme, ThemeSpec};

fn theme(name: &str, span: Option<(&str, &str)>) -> Theme {
    Theme {
        name: name.to_string(),
        spec: ThemeSpec {
            desktop: format!("{name}-desktop"),
            mouse: String::from("m"),
            controls: String::from("c"),
            icons: String::from("i"),
            borders: String::from("b"),
            wallpaper: String::from("/w.jpg"),
            kitty: None,
        },
        span: span.map(|(a, b)| TimeSpan::new(TimeSpec::parse(a).unwrap(), TimeSpec::parse(b).unwrap())),
    }
}

fn day_and_night() -> Config {
    Config::new(vec![theme("night", Some(("20:00", "06:00"))), theme("day", Some(("06:00", "20:00")))], None)
}

fn with_gap() -> Config {
    Config::new(vec![theme("work", Some(("09:00", "17:00"))), theme("plain", None)], None)
}

fn decided<'a>(step: SetStep<'a>) -> Decision<'a> {
    match step {
        SetStep::Decided(decision) => decision,
        other => panic!("{other:?}"),
    }
}

#[test]
fn end_to_end_night_theme_at_nine_in_the_evening() {
    let cfg = day_and_night();
    let now = TimeSpec::parse("21:00").unwrap();
    assert_eq!(handle_set_cmd(&cfg, None, false, false, None, None), SetStep::NeedClock);
    assert_eq!(handle_set_cmd(&cfg, None, false, false, Some(now), None), SetStep::NeedLockState);
    let unlocked = decided(handle_set_cmd(&cfg, None, false, false, Some(now), Some(false)));
    match unlocked.outcome {
        Resolution::Apply(theme) => assert_eq!(theme.name, "night"),
        other => panic!("{other:?}"),
    }
    assert_eq!(unlocked.lock, LockAction::Keep);
    let locked = decided(handle_set_cmd(&cfg, None, false, false, Some(now), Some(true)));
    match locked.outcome {
        Resolution::LockedSkip(theme) => assert_eq!(theme.name, "night"),
        other => panic!("{other:?}"),
    }
    assert_eq!(locked.lock, LockAction::Keep);
}

#[test]
fn explicit_name_never_asks_for_time_or_lock() {
    let cfg = day_and_night();
    let noon = TimeSpec::new(12, 0);
    let want = decided(handle_set_cmd(&cfg, Some("night"), false, false, None, None));
    assert!(matches!(want.outcome, Resolution::Apply(t) if t.name == "night"));
    for now in [None, Some(noon), Some(TimeSpec::new(23, 0))] {
        for locked in [None, Some(false), Some(true)] {
            assert_eq!(decided(handle_set_cmd(&cfg, Some("night"), false, false, now, locked)), want);
        }
    }
}

#[test]
fn explicit_name_is_applied_outside_its_window_and_when_locked() {
    let cfg = with_gap();
    let late = TimeSpec::new(22, 0);
    let decision = decided(handle_set_cmd(&cfg, Some("work"), false, false, Some(late), Some(true)));
    assert!(matches!(decision.outcome, Resolution::Apply(t) if t.name == "work"));
    let decision = decided(handle_set_cmd(&cfg, Some("plain"), false, false, Some(late), Some(true)));
    assert!(matches!(decision.outcome, Resolution::Apply(t) if t.name == "plain"));
}

#[test]
fn unknown_name_fails_without_falling_back_to_the_time() {
    let cfg = day_and_night();
    for (lock, unlock) in [(false, false), (true, false), (false, true), (true, true)] {
        let decision = decided(handle_set_cmd(&cfg, Some("dusk"), lock, unlock, Some(TimeSpec::new(12, 0)), Some(false)));
        assert_eq!(decision.outcome, Resolution::NameNotFound("dusk"));
        assert_eq!(decision.lock, LockAction::Keep);
    }
    let decision = decided(handle_set_cmd(&cfg, Some("Night"), true, false, None, None));
    assert_eq!(decision.outcome, Resolution::NameNotFound("Night"));
}

#[test]
fn no_window_for_the_time_is_a_failure_of_its_own() {
    let cfg = with_gap();
    let late = TimeSpec::new(22, 0);
    for locked in [None, Some(false), Some(true)] {
        for (lock, unlock) in [(false, false), (true, false), (false, true)] {
            let decision = decided(handle_set_cmd(&cfg, None, lock, unlock, Some(late), locked));
            assert_eq!(decision.outcome, Resolution::NoTimeMatch);
            assert_eq!(decision.lock, LockAction::Keep);
        }
    }
}

#[test]
fn locked_skip_differs_from_no_match() {
    let cfg = with_gap();
    let skipped = decided(handle_set_cmd(&cfg, None, false, false, Some(TimeSpec::new(10, 0)), Some(true)));
    let missed = decided(handle_set_cmd(&cfg, None, false, false, Some(TimeSpec::new(22, 0)), Some(true)));
    assert!(matches!(skipped.outcome, Resolution::LockedSkip(t) if t.name == "work"));
    assert_eq!(missed.outcome, Resolution::NoTimeMatch);
    assert_ne!(skipped.outcome, missed.outcome);
}

#[test]
fn lock_flags_are_keyed_to_the_resolved_theme() {
    let cfg = day_and_night();
    let now = Some(TimeSpec::new(21, 0));
    let d = decided(handle_set_cmd(&cfg, Some("day"), true, false, None, None));
    assert_eq!(d.lock, LockAction::Lock("day"));
    let d = decided(handle_set_cmd(&cfg, Some("day"), false, true, None, None));
    assert_eq!(d.lock, LockAction::Unlock);
    let d = decided(handle_set_cmd(&cfg, Some("day"), true, true, None, None));
    assert_eq!(d.lock, LockAction::Lock("day"));
    let d = decided(handle_set_cmd(&cfg, None, true, false, now, Some(false)));
    assert_eq!(d.lock, LockAction::Lock("night"));
    let d = decided(handle_set_cmd(&cfg, None, false, true, now, Some(true)));
    assert!(matches!(d.outcome, Resolution::LockedSkip(t) if t.name == "night"));
    assert_eq!(d.lock, LockAction::Unlock);
    let d = decided(handle_set_cmd(&cfg, None, true, false, now, Some(true)));
    assert!(matches!(d.outcome, Resolution::LockedSkip(_)));
    assert_eq!(d.lock, LockAction::Lock("night"));
}

#[test]
fn lock_takes_priority_over_unlock() {
    assert_eq!(maybe_lock_or_unlock("t", true, true), LockAction::Lock("t"));
    assert_eq!(maybe_lock_or_unlock("t", true, false), LockAction::Lock("t"));
    assert_eq!(maybe_lock_or_unlock("t", false, true), LockAction::Unlock);
    assert_eq!(maybe_lock_or_unlock("t", false, false), LockAction::Keep);
}

#[test]
fn lock_and_unlock_commands() {
    assert_eq!(handle_lock_cmd(), LockAction::Lock("unsupported"));
    assert_eq!(handle_unlock_cmd(), LockAction::Unlock);
}

#[test]
fn editor_needs_a_name() {
    assert_eq!(open_editor("", "/c.json"), EditStep::Fail(EditFailure::EmptyEditor));
    assert_eq!(open_editor("vim", "/c.json"), EditStep::Open { editor: "vim", config_path: "/c.json" });
    assert_eq!(open_editor(" ", ""), EditStep::Open { editor: " ", config_path: "" });
}

#[test]
fn edit_resolves_the_catalog_file_first() {
    let none: Option<String> = None;
    let vim = Some("vim".to_string());
    let cli = Some("/cli.json".to_string());
    assert_eq!(handle_edit_cmd(&vim, &none, &None, &None), EditStep::NeedDefaultPath);
    assert_eq!(handle_edit_cmd(&none, &none, &None, &None), EditStep::NeedDefaultPath);
    assert_eq!(handle_edit_cmd(&vim, &none, &Some(None), &None), EditStep::Fail(EditFailure::NoConfigPath));
    assert_eq!(handle_edit_cmd(&none, &none, &Some(None), &Some(None)), EditStep::Fail(EditFailure::NoConfigPath));
    assert_eq!(
        handle_edit_cmd(&vim, &none, &Some(Some("/d.json".to_string())), &None),
        EditStep::Open { editor: "vim", config_path: "/d.json" }
    );
    assert_eq!(
        handle_edit_cmd(&vim, &cli, &Some(Some("/d.json".to_string())), &None),
        EditStep::Open { editor: "vim", config_path: "/cli.json" }
    );
    assert_eq!(handle_edit_cmd(&vim, &cli, &None, &None), EditStep::Open { editor: "vim", config_path: "/cli.json" });
}

#[test]
fn edit_resolves_the_editor_second() {
    let none: Option<String> = None;
    let cli = Some("/cli.json".to_string());
    assert_eq!(handle_edit_cmd(&none, &cli, &None, &None), EditStep::NeedEditorVariable);
    assert_eq!(handle_edit_cmd(&none, &cli, &None, &Some(None)), EditStep::Fail(EditFailure::NoEditor));
    assert_eq!(
        handle_edit_cmd(&none, &cli, &None, &Some(Some("nano".to_string()))),
        EditStep::Open { editor: "nano", config_path: "/cli.json" }
    );
    assert_eq!(
        handle_edit_cmd(&Some("vim".to_string()), &cli, &None, &Some(Some("nano".to_string()))),
        EditStep::Open { editor: "vim", config_path: "/cli.json" }
    );
    assert_eq!(
        handle_edit_cmd(&none, &cli, &None, &Some(Some(String::new()))),
        EditStep::Fail(EditFailure::EmptyEditor)
    );
    assert_eq!(
        handle_edit_cmd(&Some(String::new()), &cli, &None, &Some(Some("nano".to_string()))),
        EditStep::Fail(EditFailure::EmptyEditor)
    );
}

fn args(command: Commands, config: Option<&str>) -> Args {
    Args { config: config.map(|c| c.to_string()), verbose: false, log_file: None, log_level: "info".to_string(), command }
}

#[test]
fn commands_are_dispatched() {
    let cfg = day_and_night();
    let mut known = Known::nothing();
    assert_eq!(known, Known { now: None, locked: None, default_path: None, editor_variable: None });

    let a = args(Commands::Get, None);
    assert_eq!(handle_cmd(&a, &cfg, &known), Task::ShowCurrent);
    let a = args(Commands::Lock, None);
    assert_eq!(handle_cmd(&a, &cfg, &known), Task::Lock(LockAction::Lock("unsupported")));
    let a = args(Commands::Unlock, None);
    assert_eq!(handle_cmd(&a, &cfg, &known), Task::Lock(LockAction::Unlock));

    let a = args(Commands::SetTheme { name: None, lock: true, unlock: false }, None);
    assert_eq!(handle_cmd(&a, &cfg, &known), Task::SetTheme(SetStep::NeedClock));
    known.now = Some(TimeSpec::new(7, 30));
    assert_eq!(handle_cmd(&a, &cfg, &known), Task::SetTheme(SetStep::NeedLockState));
    known.locked = Some(false);
    match handle_cmd(&a, &cfg, &known) {
        Task::SetTheme(SetStep::Decided(d)) => {
            assert!(matches!(d.outcome, Resolution::Apply(t) if t.name == "day"));
            assert_eq!(d.lock, LockAction::Lock("day"));
        }
        other => panic!("{other:?}"),
    }

    let a = args(Commands::SetTheme { name: Some("night".to_string()), lock: false, unlock: true }, None);
    match handle_cmd(&a, &cfg, &Known::nothing()) {
        Task::SetTheme(SetStep::Decided(d)) => {
            assert!(matches!(d.outcome, Resolution::Apply(t) if t.name == "night"));
            assert_eq!(d.lock, LockAction::Unlock);
        }
        other => panic!("{other:?}"),
    }

    let a = args(Commands::Edit { editor: None }, Some("/cli.json"));
    let mut known = Known::nothing();
    assert_eq!(handle_cmd(&a, &cfg, &known), Task::Edit(EditStep::NeedEditorVariable));
    known.editor_variable = Some(Some("nano".to_string()));
    assert_eq!(handle_cmd(&a, &cfg, &known), Task::Edit(EditStep::Open { editor: "nano", config_path: "/cli.json" }));
    let a = args(Commands::Edit { editor: Some("vim".to_string()) }, None);
    assert_eq!(handle_cmd(&a, &cfg, &Known::nothing()), Task::Edit(EditStep::NeedDefaultPath));
}
