//! The level at which the program logs.

use vstd::prelude::*;
use log::LevelFilter;
use crate::text::same_text;

verus! {

/// The levels of verbosity that the `log` crate tells apart.
#[verifier::external_type_specification]
pub struct ExLevelFilter(LevelFilter);

/// The level that a name stands for: `trace`, `info`, `warn` and `error`
/// name their own level, written exactly so; any other text stands for
/// `info`.
pub open spec fn level_named(level: Seq<char>) -> LevelFilter {
    if level == "trace"@ {
        LevelFilter::Trace
    } else if level == "warn"@ {
        LevelFilter::Warn
    } else if level == "error"@ {
        LevelFilter::Error
    } else {
        LevelFilter::Info
    }
}

/// The level that a name stands for.
pub fn log_level_from_string(level: &str) -> (filter: LevelFilter)
    ensures
        filter == level_named(level@),
{
    if same_text(level, "trace") {
        LevelFilter::Trace
    } else if same_text(level, "warn") {
        LevelFilter::Warn
    } else if same_text(level, "error") {
        LevelFilter::Error
    } else {
        LevelFilter::Info
    }
}

} // verus!
