//! What the program can be asked to do.

use vstd::prelude::*;

verus! {

/// A request made on the command line.
#[derive(Debug, Clone, PartialEq, Eq)]
pub enum Commands {
    /// Sets a theme, by name or by the current time.
    SetTheme {
        /// Name of the theme to apply; without it the time decides.
        name: Option<String>,
        /// Whether to switch automatic theme switching off. Takes priority
        /// over `unlock`.
        lock: bool,
        /// Whether to switch automatic theme switching back on.
        unlock: bool,
    },
    /// Reads the current settings and reports them.
    Get,
    /// Opens the catalog file in an editor.
    Edit {
        /// The editor to run; without it the `EDITOR` variable decides.
        editor: Option<String>,
    },
    /// Switches automatic theme switching off.
    Lock,
    /// Switches automatic theme switching back on.
    Unlock,
}

} // verus!
