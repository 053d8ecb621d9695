//! Checks on command-line values.

use vstd::prelude::*;

verus! {

/// The complaint about a catalog path that names no file.
pub open spec fn invalid_path_message() -> Seq<char> {
    "Path to config file is invalid"@
}

/// Accepts the path of a catalog file given on the command line where it
/// names a file: `is_file` says whether it does.
pub fn file_exists(path: &str, is_file: bool) -> (checked: Result<String, String>)
    ensures
        match checked {
            Ok(accepted) => is_file && accepted@ == path@,
            Err(complaint) => !is_file && complaint@ == invalid_path_message(),
        },
{
    if !is_file {
        return Err("Path to config file is invalid".to_owned());
    }
    Ok(path.to_owned())
}

} // verus!
