//! The arguments of one run.

use vstd::prelude::*;
use crate::command::Commands;

verus! {

/// The arguments of one run.
#[derive(Debug, Clone, PartialEq, Eq)]
pub struct Args {
    /// Path of the catalog file, where one was given.
    pub config: Option<String>,
    /// Whether to run in verbose mode.
    pub verbose: bool,
    /// Path of the log file; without it the log goes to standard output.
    pub log_file: Option<String>,
    /// Name of the log level: trace, info, warn or error.
    pub log_level: String,
    /// What to do.
    pub command: Commands,
}

} // verus!
