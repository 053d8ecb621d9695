//! Deciding what a command does.
//!
//! Each handler is a function from what is known so far to the next step:
//! either something the caller has to find out first (the time, the state
//! of the lock), or the decision. The caller finds out, asks again, and in
//! the end carries the decision out.

use vstd::prelude::*;
use crate::cli::Args;
use crate::clock::{ClockTime, TimeSpec};
use crate::command::Commands;
use crate::config::{Catalog, Config};
use crate::theme::Theme;

verus! {

/// What is to become of the lock: the mathematical content of a
/// [`LockAction`].
pub enum LockIntent {
    /// The theme of the given name is to be locked.
    Lock(Seq<char>),
    /// The lock is to be lifted.
    Unlock,
    /// The lock stays as it is.
    Keep,
}

/// What is to become of the lock.
#[derive(Debug, Clone, Copy, PartialEq, Eq)]
pub enum LockAction<'a> {
    /// The theme of the given name is to be locked.
    Lock(&'a str),
    /// The lock is to be lifted.
    Unlock,
    /// The lock stays as it is.
    Keep,
}

impl<'a> View for LockAction<'a> {
    type V = LockIntent;

    open spec fn view(&self) -> LockIntent {
        match *self {
            LockAction::Lock(theme) => LockIntent::Lock(theme@),
            LockAction::Unlock => LockIntent::Unlock,
            LockAction::Keep => LockIntent::Keep,
        }
    }
}

/// What the two flags ask for, for the theme of the given name. Where both
/// are set, locking wins.
pub open spec fn lock_intent(theme: Seq<char>, lock: bool, unlock: bool) -> LockIntent {
    if lock {
        LockIntent::Lock(theme)
    } else if unlock {
        LockIntent::Unlock
    } else {
        LockIntent::Keep
    }
}

/// What the two flags ask for, for the theme of the given name.
pub fn maybe_lock_or_unlock<'a>(theme: &'a str, lock: bool, unlock: bool) -> (action: LockAction<
    'a,
>)
    ensures
        action@ == lock_intent(theme@, lock, unlock),
{
    if lock {
        LockAction::Lock(theme)
    } else if unlock {
        LockAction::Unlock
    } else {
        LockAction::Keep
    }
}

/// What the lock command asks for: a lock keyed to no theme in particular.
pub fn handle_lock_cmd() -> (action: LockAction<'static>)
    ensures
        action@ == LockIntent::Lock("unsupported"@),
{
    maybe_lock_or_unlock("unsupported", true, false)
}

/// What the unlock command asks for.
pub fn handle_unlock_cmd() -> (action: LockAction<'static>)
    ensures
        action@ == LockIntent::Unlock,
{
    maybe_lock_or_unlock("unsupported", false, true)
}

/// How a request for a theme ends: the mathematical content of a
/// [`Resolution`].
pub enum Outcome {
    /// The theme is to be applied.
    Apply(Theme),
    /// The theme matches the time, and the lock suppresses its application.
    LockedSkip(Theme),
    /// No theme has the name asked for.
    NameNotFound(Seq<char>),
    /// No window covers the current time.
    NoTimeMatch,
}

/// How a request for a theme ends.
#[derive(Debug, Clone, Copy, PartialEq, Eq)]
pub enum Resolution<'a> {
    /// The theme is to be applied.
    Apply(&'a Theme),
    /// The theme matches the time, and the lock suppresses its application.
    LockedSkip(&'a Theme),
    /// No theme has the name asked for.
    NameNotFound(&'a str),
    /// No window covers the current time.
    NoTimeMatch,
}

impl<'a> View for Resolution<'a> {
    type V = Outcome;

    open spec fn view(&self) -> Outcome {
        match *self {
            Resolution::Apply(theme) => Outcome::Apply(*theme),
            Resolution::LockedSkip(theme) => Outcome::LockedSkip(*theme),
            Resolution::NameNotFound(name) => Outcome::NameNotFound(name@),
            Resolution::NoTimeMatch => Outcome::NoTimeMatch,
        }
    }
}

/// A resolved request: the mathematical content of a [`Decision`].
pub struct Verdict {
    pub outcome: Outcome,
    pub lock: LockIntent,
}

/// A resolved request: what becomes of the theme and what of the lock.
#[derive(Debug, Clone, Copy, PartialEq, Eq)]
pub struct Decision<'a> {
    pub outcome: Resolution<'a>,
    pub lock: LockAction<'a>,
}

impl<'a> View for Decision<'a> {
    type V = Verdict;

    open spec fn view(&self) -> Verdict {
        Verdict { outcome: self.outcome@, lock: self.lock@ }
    }
}

/// The next step of a request for a theme: the mathematical content of a
/// [`SetStep`].
pub enum SetProgress {
    NeedClock,
    NeedLockState,
    Decided(Verdict),
}

/// The next step of a request for a theme.
#[derive(Debug, Clone, Copy, PartialEq, Eq)]
pub enum SetStep<'a> {
    /// The time of day is needed.
    NeedClock,
    /// Whether the theme is locked is needed.
    NeedLockState,
    /// The request is resolved.
    Decided(Decision<'a>),
}

impl<'a> View for SetStep<'a> {
    type V = SetProgress;

    open spec fn view(&self) -> SetProgress {
        match *self {
            SetStep::NeedClock => SetProgress::NeedClock,
            SetStep::NeedLockState => SetProgress::NeedLockState,
            SetStep::Decided(decision) => SetProgress::Decided(decision@),
        }
    }
}

/// How a request for the theme named `name` ends: the first theme of that
/// name is applied and the lock flags are honoured for it; where there is
/// none, nothing is applied and the lock is left alone.
pub open spec fn resolve_named(catalog: Catalog, name: Seq<char>, lock: bool, unlock: bool)
    -> Verdict {
    match catalog.theme_for_name(name) {
        Some(theme) => Verdict {
            outcome: Outcome::Apply(theme),
            lock: lock_intent(theme.name@, lock, unlock),
        },
        None => Verdict { outcome: Outcome::NameNotFound(name), lock: LockIntent::Keep },
    }
}

/// How a request without a name ends at the time `now`: the first theme
/// whose window covers the time is applied unless the theme is locked, and
/// the lock flags are honoured for it either way; where no window covers
/// the time, nothing is applied and the lock is left alone.
pub open spec fn resolve_scheduled(
    catalog: Catalog,
    now: ClockTime,
    locked: bool,
    lock: bool,
    unlock: bool,
) -> Verdict {
    match catalog.theme_for_time(now) {
        Some(theme) => Verdict {
            outcome: if locked {
                Outcome::LockedSkip(theme)
            } else {
                Outcome::Apply(theme)
            },
            lock: lock_intent(theme.name@, lock, unlock),
        },
        None => Verdict { outcome: Outcome::NoTimeMatch, lock: LockIntent::Keep },
    }
}

/// How a request ends once everything is known: a name, where given,
/// decides alone; without one the time and the lock decide.
pub open spec fn resolve(
    catalog: Catalog,
    name: Option<Seq<char>>,
    now: ClockTime,
    locked: bool,
    lock: bool,
    unlock: bool,
) -> Verdict {
    match name {
        Some(name) => resolve_named(catalog, name, lock, unlock),
        None => resolve_scheduled(catalog, now, locked, lock, unlock),
    }
}

/// The next step of a request, given what is known: the time of day and
/// the state of the lock are `None` until the caller has found them out.
/// The time is asked for only where no name was given, and the state of
/// the lock only where a window covers the time.
pub open spec fn set_progress(
    catalog: Catalog,
    name: Option<Seq<char>>,
    lock: bool,
    unlock: bool,
    now: Option<ClockTime>,
    locked: Option<bool>,
) -> SetProgress {
    match name {
        Some(name) => SetProgress::Decided(resolve_named(catalog, name, lock, unlock)),
        None => match now {
            None => SetProgress::NeedClock,
            Some(now) => match catalog.theme_for_time(now) {
                None => SetProgress::Decided(
                    Verdict { outcome: Outcome::NoTimeMatch, lock: LockIntent::Keep },
                ),
                Some(_) => match locked {
                    None => SetProgress::NeedLockState,
                    Some(locked) => SetProgress::Decided(
                        resolve_scheduled(catalog, now, locked, lock, unlock),
                    ),
                },
            },
        },
    }
}

/// An explicit name that exists decides alone: the theme of that name is
/// applied whatever the time and whatever the state of the lock, and
/// neither is ever asked for.
pub proof fn lemma_name_decides_alone(
    catalog: Catalog,
    name: Seq<char>,
    lock: bool,
    unlock: bool,
    now: Option<ClockTime>,
    locked: Option<bool>,
)
    requires
        catalog.theme_for_name(name) is Some,
    ensures
        set_progress(catalog, Some(name), lock, unlock, now, locked) == SetProgress::Decided(
            Verdict {
                outcome: Outcome::Apply(catalog.theme_for_name(name)->0),
                lock: lock_intent(catalog.theme_for_name(name)->0.name@, lock, unlock),
            },
        ),
        set_progress(catalog, Some(name), lock, unlock, now, locked) == set_progress(
            catalog,
            Some(name),
            lock,
            unlock,
            None,
            None,
        ),
{
}

/// A name that no theme has ends the request at once, with nothing applied
/// and the lock left alone; the time is not asked for as a fallback.
pub proof fn lemma_unknown_name_fails(
    catalog: Catalog,
    name: Seq<char>,
    lock: bool,
    unlock: bool,
    now: Option<ClockTime>,
    locked: Option<bool>,
)
    requires
        catalog.theme_for_name(name) is None,
    ensures
        set_progress(catalog, Some(name), lock, unlock, now, locked) == SetProgress::Decided(
            Verdict { outcome: Outcome::NameNotFound(name), lock: LockIntent::Keep },
        ),
{
}

/// The lock gates the scheduled path and nothing else: where a window
/// covers the time, the theme found is the same locked or not, it is
/// applied exactly when the theme is not locked, a suppressed switch is
/// reported as such and never as a missing match, and the lock flags are
/// honoured for the theme found either way.
pub proof fn lemma_lock_suppresses_scheduled_switch(
    catalog: Catalog,
    now: ClockTime,
    lock: bool,
    unlock: bool,
)
    requires
        catalog.theme_for_time(now) is Some,
    ensures
        resolve(catalog, None, now, true, lock, unlock).outcome == Outcome::LockedSkip(
            catalog.theme_for_time(now)->0,
        ),
        resolve(catalog, None, now, false, lock, unlock).outcome == Outcome::Apply(
            catalog.theme_for_time(now)->0,
        ),
        resolve(catalog, None, now, true, lock, unlock).outcome != Outcome::NoTimeMatch,
        resolve(catalog, None, now, true, lock, unlock).lock == resolve(
            catalog,
            None,
            now,
            false,
            lock,
            unlock,
        ).lock,
        resolve(catalog, None, now, true, lock, unlock).lock == lock_intent(
            catalog.theme_for_time(now)->0.name@,
            lock,
            unlock,
        ),
{
}

/// Where nothing is resolved, nothing is changed: a request that fails,
/// for want of the name or of a window that covers the time, leaves the
/// lock as it is.
pub proof fn lemma_failure_leaves_lock_alone(
    catalog: Catalog,
    name: Option<Seq<char>>,
    now: ClockTime,
    locked: bool,
    lock: bool,
    unlock: bool,
)
    ensures
        ({
            let verdict = resolve(catalog, name, now, locked, lock, unlock);
            (verdict.outcome is NameNotFound || verdict.outcome is NoTimeMatch) ==> verdict.lock
                == LockIntent::Keep
        }),
        resolve(catalog, name, now, locked, lock, unlock).outcome is NameNotFound <==> name is Some
            && catalog.theme_for_name(name->0) is None,
        resolve(catalog, name, now, locked, lock, unlock).outcome is NoTimeMatch <==> name is None
            && catalog.theme_for_time(now) is None,
        resolve(catalog, name, now, locked, lock, unlock).outcome is LockedSkip ==> name is None
            && locked,
{
}

/// Asking step by step ends in the resolution: once the time and the state
/// of the lock are known, the request is decided, and as `resolve` says.
/// Before that, a step asks only for what is still unknown.
pub proof fn lemma_steps_reach_resolution(
    catalog: Catalog,
    name: Option<Seq<char>>,
    lock: bool,
    unlock: bool,
    now: ClockTime,
    locked: bool,
)
    ensures
        set_progress(catalog, name, lock, unlock, Some(now), Some(locked)) == SetProgress::Decided(
            resolve(catalog, name, now, locked, lock, unlock),
        ),
        set_progress(catalog, name, lock, unlock, Some(now), None) is Decided ==> set_progress(
            catalog,
            name,
            lock,
            unlock,
            Some(now),
            None,
        ) == SetProgress::Decided(resolve(catalog, name, now, locked, lock, unlock)),
        set_progress(catalog, name, lock, unlock, None, None) is Decided ==> set_progress(
            catalog,
            name,
            lock,
            unlock,
            None,
            None,
        ) == SetProgress::Decided(resolve(catalog, name, now, locked, lock, unlock)),
        !(set_progress(catalog, name, lock, unlock, Some(now), None) is NeedClock),
        !(set_progress(catalog, name, lock, unlock, None, None) is NeedLockState),
{
}

/// The text of a name that may be absent.
pub open spec fn name_text(name: Option<&str>) -> Option<Seq<char>> {
    match name {
        Some(name) => Some(name@),
        None => None,
    }
}

/// The reading of a time that may be unknown.
pub open spec fn clock_reading(now: Option<TimeSpec>) -> Option<ClockTime> {
    match now {
        Some(now) => Some(now@),
        None => None,
    }
}

/// Decides the next step of a request to set a theme.
pub fn handle_set_cmd<'a>(
    cfg: &'a Config,
    theme_name: Option<&'a str>,
    lock: bool,
    unlock: bool,
    now: Option<TimeSpec>,
    locked: Option<bool>,
) -> (step: SetStep<'a>)
    ensures
        step@ == set_progress(cfg@, name_text(theme_name), lock, unlock, clock_reading(now), locked),
{
    if let Some(name) = theme_name {
        if let Some(theme) = cfg.theme_for_name(name) {
            SetStep::Decided(
                Decision {
                    outcome: Resolution::Apply(theme),
                    lock: maybe_lock_or_unlock(theme.name.as_str(), lock, unlock),
                },
            )
        } else {
            SetStep::Decided(
                Decision { outcome: Resolution::NameNotFound(name), lock: LockAction::Keep },
            )
        }
    } else if let Some(now) = now {
        if let Some(theme) = cfg.theme_for_time(now) {
            match locked {
                None => SetStep::NeedLockState,
                Some(locked) => {
                    let outcome = if !locked {
                        Resolution::Apply(theme)
                    } else {
                        Resolution::LockedSkip(theme)
                    };
                    SetStep::Decided(
                        Decision {
                            outcome,
                            lock: maybe_lock_or_unlock(theme.name.as_str(), lock, unlock),
                        },
                    )
                },
            }
        } else {
            SetStep::Decided(
                Decision { outcome: Resolution::NoTimeMatch, lock: LockAction::Keep },
            )
        }
    } else {
        SetStep::NeedClock
    }
}

/// Why no editor was opened.
#[derive(Debug, Clone, Copy, PartialEq, Eq, Structural)]
pub enum EditFailure {
    /// No catalog file was named and none is in the default place.
    NoConfigPath,
    /// No editor was named and the `EDITOR` variable names none.
    NoEditor,
    /// The editor's name is empty.
    EmptyEditor,
}

/// The next step of a request to edit the catalog: the mathematical
/// content of an [`EditStep`].
pub enum EditProgress {
    NeedDefaultPath,
    NeedEditorVariable,
    Open { editor: Seq<char>, config_path: Seq<char> },
    Fail(EditFailure),
}

/// The next step of a request to edit the catalog.
#[derive(Debug, Clone, Copy, PartialEq, Eq)]
pub enum EditStep<'a> {
    /// The default place of the catalog file is needed.
    NeedDefaultPath,
    /// The value of the `EDITOR` variable is needed.
    NeedEditorVariable,
    /// The editor is to be run on the catalog file.
    Open { editor: &'a str, config_path: &'a str },
    /// Nothing is to be run.
    Fail(EditFailure),
}

impl<'a> View for EditStep<'a> {
    type V = EditProgress;

    open spec fn view(&self) -> EditProgress {
        match *self {
            EditStep::NeedDefaultPath => EditProgress::NeedDefaultPath,
            EditStep::NeedEditorVariable => EditProgress::NeedEditorVariable,
            EditStep::Open { editor, config_path } => EditProgress::Open {
                editor: editor@,
                config_path: config_path@,
            },
            EditStep::Fail(failure) => EditProgress::Fail(failure),
        }
    }
}

/// Running `editor` on the catalog file, unless its name is empty.
pub open spec fn open_progress(editor: Seq<char>, config_path: Seq<char>) -> EditProgress {
    if editor.len() == 0 {
        EditProgress::Fail(EditFailure::EmptyEditor)
    } else {
        EditProgress::Open { editor, config_path }
    }
}

/// The next step of a request to edit the catalog, given what is known:
/// the default place of the catalog file and the value of the `EDITOR`
/// variable are `None` until the caller has found them out, and hold
/// `None` where there is none. The catalog file comes first: the one
/// named, else the one in the default place. The editor comes second: the
/// one named, else the one in the variable.
pub open spec fn edit_progress(
    editor: Option<Seq<char>>,
    cli_cfg_path: Option<Seq<char>>,
    default_path: Option<Option<Seq<char>>>,
    editor_variable: Option<Option<Seq<char>>>,
) -> EditProgress {
    match (cli_cfg_path, default_path) {
        (None, None) => EditProgress::NeedDefaultPath,
        (None, Some(None)) => EditProgress::Fail(EditFailure::NoConfigPath),
        (Some(config_path), _) | (None, Some(Some(config_path))) => match (
            editor,
            editor_variable,
        ) {
            (None, None) => EditProgress::NeedEditorVariable,
            (None, Some(None)) => EditProgress::Fail(EditFailure::NoEditor),
            (Some(editor), _) | (None, Some(Some(editor))) => open_progress(editor, config_path),
        },
    }
}

/// Decides whether `editor` is run on the catalog file: an editor without
/// a name is not.
pub fn open_editor<'a>(editor: &'a str, config_path: &'a str) -> (step: EditStep<'a>)
    ensures
        step@ == open_progress(editor@, config_path@),
{
    if editor.is_empty() {
        EditStep::Fail(EditFailure::EmptyEditor)
    } else {
        EditStep::Open { editor, config_path }
    }
}

/// The text of a string that may be absent.
pub open spec fn text_of(text: Option<String>) -> Option<Seq<char>> {
    match text {
        Some(text) => Some(text@),
        None => None,
    }
}

/// The text of something looked up: `None` while unknown, else what was
/// found.
pub open spec fn found_text(found: Option<Option<String>>) -> Option<Option<Seq<char>>> {
    match found {
        Some(text) => Some(text_of(text)),
        None => None,
    }
}

/// Decides the next step of a request to edit the catalog.
pub fn handle_edit_cmd<'a>(
    editor: &'a Option<String>,
    cli_cfg_path: &'a Option<String>,
    default_path: &'a Option<Option<String>>,
    editor_variable: &'a Option<Option<String>>,
) -> (step: EditStep<'a>)
    ensures
        step@ == edit_progress(
            text_of(*editor),
            text_of(*cli_cfg_path),
            found_text(*default_path),
            found_text(*editor_variable),
        ),
{
    let config_path: &str = if let Some(path) = cli_cfg_path {
        path.as_str()
    } else {
        match default_path {
            None => {
                return EditStep::NeedDefaultPath;
            },
            Some(None) => {
                return EditStep::Fail(EditFailure::NoConfigPath);
            },
            Some(Some(path)) => path.as_str(),
        }
    };
    if let Some(editor_name) = editor {
        open_editor(editor_name.as_str(), config_path)
    } else {
        match editor_variable {
            None => EditStep::NeedEditorVariable,
            Some(None) => EditStep::Fail(EditFailure::NoEditor),
            Some(Some(editor_name)) => open_editor(editor_name.as_str(), config_path),
        }
    }
}

/// What the caller has found out so far. Each field is `None` until then.
#[derive(Debug, Clone, PartialEq, Eq)]
pub struct Known {
    /// The time of day.
    pub now: Option<TimeSpec>,
    /// Whether the theme is locked.
    pub locked: Option<bool>,
    /// The catalog file in the default place, if there is one.
    pub default_path: Option<Option<String>>,
    /// The value of the `EDITOR` variable, if it has one.
    pub editor_variable: Option<Option<String>>,
}

impl Known {
    /// Nothing is known yet.
    pub fn nothing() -> (known: Known)
        ensures
            known.now is None,
            known.locked is None,
            known.default_path is None,
            known.editor_variable is None,
    {
        Known { now: None, locked: None, default_path: None, editor_variable: None }
    }
}

/// What a command comes to: the mathematical content of a [`Task`].
pub enum Job {
    SetTheme(SetProgress),
    ShowCurrent,
    Edit(EditProgress),
    Lock(LockIntent),
}

/// What a command comes to.
#[derive(Debug, Clone, Copy, PartialEq, Eq)]
pub enum Task<'a> {
    /// A theme is being set; the step says how far that has got.
    SetTheme(SetStep<'a>),
    /// The current settings are to be read and reported.
    ShowCurrent,
    /// The catalog is being opened in an editor; the step says how far
    /// that has got.
    Edit(EditStep<'a>),
    /// The lock is to be changed and nothing else.
    Lock(LockAction<'a>),
}

impl<'a> View for Task<'a> {
    type V = Job;

    open spec fn view(&self) -> Job {
        match *self {
            Task::SetTheme(step) => Job::SetTheme(step@),
            Task::ShowCurrent => Job::ShowCurrent,
            Task::Edit(step) => Job::Edit(step@),
            Task::Lock(action) => Job::Lock(action@),
        }
    }
}

/// What the command in `args` comes to, given the catalog and what is
/// known so far.
pub open spec fn job(args: Args, catalog: Catalog, known: Known) -> Job {
    match args.command {
        Commands::SetTheme { name, lock, unlock } => Job::SetTheme(
            set_progress(catalog, text_of(name), lock, unlock, clock_reading(known.now), known.locked),
        ),
        Commands::Get => Job::ShowCurrent,
        Commands::Edit { editor } => Job::Edit(
            edit_progress(
                text_of(editor),
                text_of(args.config),
                found_text(known.default_path),
                found_text(known.editor_variable),
            ),
        ),
        Commands::Lock => Job::Lock(LockIntent::Lock("unsupported"@)),
        Commands::Unlock => Job::Lock(LockIntent::Unlock),
    }
}

/// Decides what the command in `args` comes to. Where the answer is a step
/// that asks for something, the caller finds it out, records it in `known`
/// and asks again.
pub fn handle_cmd<'a>(args: &'a Args, cfg: &'a Config, known: &'a Known) -> (task: Task<'a>)
    ensures
        task@ == job(*args, cfg@, *known),
{
    match &args.command {
        Commands::SetTheme { name, lock, unlock } => {
            let theme_name: Option<&str> = match name {
                Some(name) => Some(name.as_str()),
                None => None,
            };
            Task::SetTheme(
                handle_set_cmd(cfg, theme_name, *lock, *unlock, known.now, known.locked),
            )
        },
        Commands::Get => Task::ShowCurrent,
        Commands::Edit { editor } => Task::Edit(
            handle_edit_cmd(editor, &args.config, &known.default_path, &known.editor_variable),
        ),
        Commands::Lock => Task::Lock(handle_lock_cmd()),
        Commands::Unlock => Task::Lock(handle_unlock_cmd()),
    }
}

} // verus!
