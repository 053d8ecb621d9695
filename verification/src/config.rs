//! The theme catalog and the lookups in it.

use vstd::prelude::*;
use vstd::string::{to_string_from_display_ensures, StringExecFns};
use std::io::ErrorKind;
use crate::cli::Args;
use crate::clock::{ClockTime, TimeSpec};
use crate::text::same_text;
use crate::theme::Theme;

verus! {

/// The mathematical content of a catalog: its themes in the order in which
/// they were declared, and the name of the default theme, if one was given.
pub struct Catalog {
    pub themes: Seq<Theme>,
    pub default: Option<Seq<char>>,
}

impl Catalog {
    /// The theme at `i` has the name `name`, character for character.
    pub open spec fn named_at(self, i: int, name: Seq<char>) -> bool {
        0 <= i < self.themes.len() && self.themes[i].name@ == name
    }

    /// The theme at `i` is the first one with the name `name`.
    pub open spec fn first_named_at(self, i: int, name: Seq<char>) -> bool {
        self.named_at(i, name) && forall|j: int| 0 <= j < i ==> !self.named_at(j, name)
    }

    /// The first theme in declaration order with the name `name`.
    pub open spec fn theme_for_name(self, name: Seq<char>) -> Option<Theme> {
        if exists|i: int| self.first_named_at(i, name) {
            Some(self.themes[choose|i: int| self.first_named_at(i, name)])
        } else {
            None
        }
    }

    /// The theme at `i` has a window, and the window covers `now`.
    pub open spec fn covering_at(self, i: int, now: ClockTime) -> bool {
        &&& 0 <= i < self.themes.len()
        &&& self.themes[i].span matches Some(span)
        &&& span@.covers(now)
    }

    /// The theme at `i` is the first one whose window covers `now`.
    pub open spec fn first_covering_at(self, i: int, now: ClockTime) -> bool {
        self.covering_at(i, now) && forall|j: int| 0 <= j < i ==> !self.covering_at(j, now)
    }

    /// The first theme in declaration order whose window covers `now`.
    /// Themes without a window are passed over.
    pub open spec fn theme_for_time(self, now: ClockTime) -> Option<Theme> {
        if exists|i: int| self.first_covering_at(i, now) {
            Some(self.themes[choose|i: int| self.first_covering_at(i, now)])
        } else {
            None
        }
    }
}

/// Only one theme is the first with a given name.
pub proof fn lemma_first_named_is_unique(catalog: Catalog, name: Seq<char>, i: int, j: int)
    requires
        catalog.first_named_at(i, name),
        catalog.first_named_at(j, name),
    ensures
        i == j,
{
}

/// Only one theme is the first whose window covers a given time.
pub proof fn lemma_first_covering_is_unique(catalog: Catalog, now: ClockTime, i: int, j: int)
    requires
        catalog.first_covering_at(i, now),
        catalog.first_covering_at(j, now),
    ensures
        i == j,
{
}

/// Lookup by name gives the first theme with that name, whatever themes of
/// the same name follow it, and gives nothing exactly when no theme has the
/// name.
pub proof fn lemma_lookup_by_name_takes_first(catalog: Catalog, name: Seq<char>, i: int)
    requires
        catalog.named_at(i, name),
    ensures
        exists|first: int|
            0 <= first <= i && #[trigger] catalog.first_named_at(first, name)
                && catalog.theme_for_name(name) == Some(catalog.themes[first]),
    decreases i,
{
    if catalog.first_named_at(i, name) {
        let chosen = choose|k: int| catalog.first_named_at(k, name);
        lemma_first_named_is_unique(catalog, name, i, chosen);
    } else {
        let earlier = choose|j: int| 0 <= j < i && catalog.named_at(j, name);
        lemma_lookup_by_name_takes_first(catalog, name, earlier);
    }
}

/// Lookup by name finds nothing exactly when no theme has the name.
pub proof fn lemma_lookup_by_name_misses(catalog: Catalog, name: Seq<char>)
    ensures
        catalog.theme_for_name(name) is None <==> forall|i: int| !catalog.named_at(i, name),
{
    if exists|i: int| catalog.named_at(i, name) {
        let i = choose|i: int| catalog.named_at(i, name);
        lemma_lookup_by_name_takes_first(catalog, name, i);
    }
}

/// Catalog order is priority order: where the windows of several themes
/// cover a time, lookup by time gives the one declared first.
pub proof fn lemma_lookup_by_time_takes_first(catalog: Catalog, now: ClockTime, i: int)
    requires
        catalog.covering_at(i, now),
    ensures
        exists|first: int|
            0 <= first <= i && #[trigger] catalog.first_covering_at(first, now)
                && catalog.theme_for_time(now) == Some(catalog.themes[first]),
    decreases i,
{
    if catalog.first_covering_at(i, now) {
        let chosen = choose|k: int| catalog.first_covering_at(k, now);
        lemma_first_covering_is_unique(catalog, now, i, chosen);
    } else {
        let earlier = choose|j: int| 0 <= j < i && catalog.covering_at(j, now);
        lemma_lookup_by_time_takes_first(catalog, now, earlier);
    }
}

/// Lookup by time finds nothing exactly when no window covers the time.
pub proof fn lemma_lookup_by_time_misses(catalog: Catalog, now: ClockTime)
    ensures
        catalog.theme_for_time(now) is None <==> forall|i: int| !catalog.covering_at(i, now),
{
    if exists|i: int| catalog.covering_at(i, now) {
        let i = choose|i: int| catalog.covering_at(i, now);
        lemma_lookup_by_time_takes_first(catalog, now, i);
    }
}

/// The kinds of I/O failure that std tells apart.
#[verifier::external_type_specification]
pub struct ExErrorKind(ErrorKind);

/// `ErrorKind`'s `Clone`: a kind is a plain value, and its copy is the
/// same kind.
pub assume_specification[ <ErrorKind as Clone>::clone ](kind: &ErrorKind) -> (copy: ErrorKind)
    ensures
        copy == *kind,
;

/// Why no catalog could be loaded.
#[derive(Clone, Debug)]
pub enum ConfigError {
    /// The file at the path could not be read, for the reason given.
    FileError(String, ErrorKind),
    /// The file was read and is no catalog, as the description says.
    InvalidFormat(String),
}

impl ConfigError {
    /// The text of the failure, given the words for the kind of I/O failure.
    pub open spec fn spec_message(self, kind_words: Seq<char>) -> Seq<char> {
        match self {
            ConfigError::InvalidFormat(description) => "Invalid format of config file: "@
                + description@,
            ConfigError::FileError(path, kind) => "Failed to read config file: "@ + path@ + "; "@
                + kind_words,
        }
    }

    /// The error that stands for a catalog that is nowhere to be found.
    pub open spec fn is_missing_catalog(self) -> bool {
        self matches ConfigError::FileError(path, kind) && path@ == "(unknown)"@ && kind
            == ErrorKind::NotFound
    }

    /// The text of the failure, for display. A file error ends in the words
    /// that std has for its kind.
    pub fn message(&self) -> (text: String)
        ensures
            match *self {
                ConfigError::InvalidFormat(_) => text@ == self.spec_message(Seq::empty()),
                ConfigError::FileError(_, kind) => exists|words: String|
                    to_string_from_display_ensures::<ErrorKind>(&kind, words) && text@
                        == self.spec_message(words@),
            },
    {
        match self {
            ConfigError::InvalidFormat(description) => {
                let mut text = "Invalid format of config file: ".to_owned();
                text.append(description.as_str());
                text
            },
            ConfigError::FileError(path, kind) => {
                let words = kind.to_string();
                let mut text = "Failed to read config file: ".to_owned();
                text.append(path.as_str());
                text.append("; ");
                text.append(words.as_str());
                text
            },
        }
    }
}

/// An ordered collection of themes.
#[derive(Debug, Clone, PartialEq, Eq)]
pub struct Config {
    themes: Vec<Theme>,
    default: Option<String>,
}

impl View for Config {
    type V = Catalog;

    closed spec fn view(&self) -> Catalog {
        Catalog {
            themes: self.themes@,
            default: match self.default {
                Some(name) => Some(name@),
                None => None,
            },
        }
    }
}

impl Config {
    /// Makes a catalog of `themes`, in that order. The name of a default
    /// theme is kept and never consulted.
    pub fn new(themes: Vec<Theme>, default: Option<String>) -> (cfg: Config)
        ensures
            cfg@.themes == themes@,
            cfg@.default == match default {
                Some(name) => Some(name@),
                None => None,
            },
    {
        Config { themes, default }
    }

    /// The themes, in declaration order.
    pub fn themes(&self) -> (themes: &Vec<Theme>)
        ensures
            themes@ == self@.themes,
    {
        &self.themes
    }

    /// The name of the default theme, where the catalog gives one.
    pub fn default_name(&self) -> (name: Option<&String>)
        ensures
            match name {
                Some(name) => self@.default == Some(name@),
                None => self@.default is None,
            },
    {
        self.default.as_ref()
    }

    /// The first theme in declaration order whose name is exactly `name`.
    pub fn theme_for_name(&self, name: &str) -> (found: Option<&Theme>)
        ensures
            match found {
                Some(theme) => self@.theme_for_name(name@) == Some(*theme),
                None => self@.theme_for_name(name@) is None,
            },
    {
        let mut i: usize = 0;
        while i < self.themes.len()
            invariant
                i <= self.themes@.len(),
                forall|j: int| 0 <= j < i ==> !self@.named_at(j, name@),
            decreases self.themes.len() - i,
        {
            let theme = &self.themes[i];
            if same_text(theme.name.as_str(), name) {
                proof {
                    assert(self@.first_named_at(i as int, name@));
                    lemma_lookup_by_name_takes_first(self@, name@, i as int);
                }
                return Some(theme);
            }
            i += 1;
        }
        proof {
            lemma_lookup_by_name_misses(self@, name@);
        }
        None
    }

    /// The first theme in declaration order whose window covers `now`.
    pub fn theme_for_time(&self, now: TimeSpec) -> (found: Option<&Theme>)
        ensures
            match found {
                Some(theme) => self@.theme_for_time(now@) == Some(*theme),
                None => self@.theme_for_time(now@) is None,
            },
    {
        let mut i: usize = 0;
        while i < self.themes.len()
            invariant
                i <= self.themes@.len(),
                forall|j: int| 0 <= j < i ==> !self@.covering_at(j, now@),
            decreases self.themes.len() - i,
        {
            let theme = &self.themes[i];
            if let Some(span) = &theme.span {
                if span.contains(&now) {
                    proof {
                        assert(self@.first_covering_at(i as int, now@));
                        lemma_lookup_by_time_takes_first(self@, now@, i as int);
                    }
                    return Some(theme);
                }
            }
            i += 1;
        }
        proof {
            lemma_lookup_by_time_misses(self@, now@);
        }
        None
    }
}

/// What loading the catalog needs next.
#[derive(Debug)]
pub enum LoadStep {
    /// The file named on the command line is to be read.
    ReadGiven(String),
    /// The catalog file is to be looked for in its default place.
    LocateDefault,
    /// The file found in the default place is to be read.
    ReadDefault(String),
    /// Loading has ended, with a catalog or without.
    Done(Result<Config, ConfigError>),
}

/// Decides how the catalog is loaded, one step at a time. The caller hands
/// in what it has learned so far and does what the step asks: `given` is
/// the result of reading the file named on the command line, `default_path`
/// the result of looking in the default place, `fallback` the result of
/// reading the file found there; each is `None` until it is known.
///
/// A file named on the command line is read first, and a catalog loaded
/// from it ends the search. Where none was named or it could not be
/// loaded, the default place decides: the result of reading the file
/// there, or, where there is none, a file error of kind not-found for the
/// path `(unknown)`.
pub fn load_config(
    args: &Args,
    given: Option<Result<Config, ConfigError>>,
    default_path: Option<Option<String>>,
    fallback: Option<Result<Config, ConfigError>>,
) -> (step: LoadStep)
    ensures
        match (args.config, given) {
            (Some(path), None) => step == LoadStep::ReadGiven(path),
            (Some(_), Some(Ok(cfg))) => step == LoadStep::Done(Ok(cfg)),
            _ => match default_path {
                None => step == LoadStep::LocateDefault,
                Some(None) => step matches LoadStep::Done(Err(e)) && e.is_missing_catalog(),
                Some(Some(path)) => match fallback {
                    None => step == LoadStep::ReadDefault(path),
                    Some(loaded) => step == LoadStep::Done(loaded),
                },
            },
        },
{
    if let Some(path) = &args.config {
        match given {
            None => {
                return LoadStep::ReadGiven(path.clone());
            },
            Some(Ok(cfg)) => {
                return LoadStep::Done(Ok(cfg));
            },
            Some(Err(_)) => {},
        }
    }
    match default_path {
        None => LoadStep::LocateDefault,
        Some(None) => LoadStep::Done(
            Err(ConfigError::FileError("(unknown)".to_owned(), ErrorKind::NotFound)),
        ),
        Some(Some(path)) => match fallback {
            None => LoadStep::ReadDefault(path),
            Some(loaded) => LoadStep::Done(loaded),
        },
    }
}

} // verus!
