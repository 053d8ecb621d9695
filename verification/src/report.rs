//! What came of running a command, and what to say about it.

use vstd::prelude::*;
use vstd::string::StringExecFns;
use crate::decimal::{render_i32, signed_decimal_text};
use crate::gsettings::{Change, Field, Reading, Setting};

verus! {

/// How an attempt to run a program ended.
#[derive(Debug, Clone, PartialEq, Eq)]
pub enum ProcessOutcome {
    /// The program ran and ended: whether it reported success, and its
    /// exit code where it has one.
    Exited { success: bool, code: Option<i32> },
    /// The program could not be started, for the reason given.
    NotStarted(String),
}

/// How the change of one setting ended.
#[derive(Debug, Clone, Copy, PartialEq, Eq, Structural)]
pub enum FieldOutcome {
    /// The setting was changed.
    Success,
    /// The program ended with the given exit code, which is not zero.
    ProcessError(i32),
    /// The program ended without an exit code.
    Interrupted,
    /// The program could not be started.
    SpawnError,
}

/// What to say about one run of a program.
#[derive(Debug, Clone, PartialEq, Eq)]
pub struct Report {
    pub outcome: FieldOutcome,
    pub text: String,
}

impl Report {
    /// Whether the report is of a failure, to be logged as an error.
    pub fn is_failure(&self) -> (failed: bool)
        ensures
            failed == (self.outcome != FieldOutcome::Success),
    {
        match self.outcome {
            FieldOutcome::Success => false,
            _ => true,
        }
    }
}

/// How a run ended, as an outcome of the change it was to make.
pub open spec fn outcome_of(result: ProcessOutcome) -> FieldOutcome {
    match result {
        ProcessOutcome::Exited { success, code } => if success {
            FieldOutcome::Success
        } else {
            match code {
                Some(code) => FieldOutcome::ProcessError(code),
                None => FieldOutcome::Interrupted,
            }
        },
        ProcessOutcome::NotStarted(_) => FieldOutcome::SpawnError,
    }
}

/// The words for how a run ended.
pub open spec fn report_text(
    result: ProcessOutcome,
    success_msg: Seq<char>,
    failure_msg: Seq<char>,
) -> Seq<char> {
    match result {
        ProcessOutcome::Exited { success, code } => if success {
            success_msg
        } else {
            match code {
                Some(code) => failure_msg + ". Process returned non-zero return code: "@
                    + signed_decimal_text(code as int),
                None => failure_msg + ". Process was most likely interrupted"@,
            }
        },
        ProcessOutcome::NotStarted(reason) => "Failed to execute the process with error: "@
            + reason@,
    }
}

/// Reports how a run ended: with the words for success where the program
/// reported success; with the words for failure and the exit code, or the
/// remark that it has none, where it did not; with the reason where it
/// could not be started.
pub fn handle_result(result: ProcessOutcome, success_msg: String, failure_msg: String) -> (report:
    Report)
    ensures
        report.outcome == outcome_of(result),
        report.text@ == report_text(result, success_msg@, failure_msg@),
{
    match result {
        ProcessOutcome::Exited { success, code } => {
            if success {
                Report { outcome: FieldOutcome::Success, text: success_msg }
            } else if let Some(ret_code) = code {
                let mut text = failure_msg;
                text.append(". Process returned non-zero return code: ");
                let digits = render_i32(ret_code);
                text.append(digits.as_str());
                Report { outcome: FieldOutcome::ProcessError(ret_code), text }
            } else {
                let mut text = failure_msg;
                text.append(". Process was most likely interrupted");
                Report { outcome: FieldOutcome::Interrupted, text }
            }
        },
        ProcessOutcome::NotStarted(reason) => {
            let mut text = "Failed to execute the process with error: ".to_owned();
            text.append(reason.as_str());
            Report { outcome: FieldOutcome::SpawnError, text }
        },
    }
}

/// The exit code to show for a run that failed: its own, or -1 where it
/// has none.
pub open spec fn shown_code(code: Option<i32>) -> int {
    match code {
        Some(code) => code as int,
        None => -1,
    }
}

/// The words for how a run of the editor ended.
pub open spec fn editor_report_text(result: ProcessOutcome) -> Seq<char> {
    match result {
        ProcessOutcome::Exited { success, code } => if success {
            "Editor closed properly with status code 0"@
        } else {
            "Editor closed with error status code "@ + signed_decimal_text(shown_code(code))
                + " (-1 means unknown)"@
        },
        ProcessOutcome::NotStarted(reason) => "Failed to open the editor, reported error: "@
            + reason@,
    }
}

/// Reports how a run of the editor ended.
pub fn editor_report(result: ProcessOutcome) -> (report: Report)
    ensures
        report.outcome == outcome_of(result),
        report.text@ == editor_report_text(result),
{
    match result {
        ProcessOutcome::Exited { success, code } => {
            if success {
                Report {
                    outcome: FieldOutcome::Success,
                    text: "Editor closed properly with status code 0".to_owned(),
                }
            } else {
                let (outcome, shown): (FieldOutcome, i32) = match code {
                    Some(code) => (FieldOutcome::ProcessError(code), code),
                    None => (FieldOutcome::Interrupted, -1),
                };
                let mut text = "Editor closed with error status code ".to_owned();
                let digits = render_i32(shown);
                text.append(digits.as_str());
                text.append(" (-1 means unknown)");
                Report { outcome, text }
            }
        },
        ProcessOutcome::NotStarted(reason) => {
            let mut text = "Failed to open the editor, reported error: ".to_owned();
            text.append(reason.as_str());
            Report { outcome: FieldOutcome::SpawnError, text }
        },
    }
}

/// What a setting is called at the start of a sentence.
pub open spec fn label_of(field: Field) -> Seq<char> {
    match field {
        Field::Desktop => "Desktop theme"@,
        Field::Mouse => "Mouse theme"@,
        Field::Controls => "Controls theme"@,
        Field::Icons => "Icons theme"@,
        Field::Borders => "Borders theme"@,
        Field::Wallpaper => "Wallpaper"@,
        Field::Kitty => "Kitty theme"@,
    }
}

/// What a setting is called within a sentence.
pub open spec fn inner_label_of(field: Field) -> Seq<char> {
    match field {
        Field::Desktop => "desktop theme"@,
        Field::Mouse => "mouse theme"@,
        Field::Controls => "controls theme"@,
        Field::Icons => "icons theme"@,
        Field::Borders => "borders theme"@,
        Field::Wallpaper => "wallpaper"@,
        Field::Kitty => "kitty theme"@,
    }
}

/// The words for a change that was made.
pub open spec fn success_text(setting: Setting) -> Seq<char> {
    label_of(setting.field) + " set to: "@ + setting.value
}

/// The words for a change that failed.
pub open spec fn failure_text(setting: Setting) -> Seq<char> {
    "Failed to set "@ + inner_label_of(setting.field) + " to: "@ + setting.value
}

/// What a setting is called at the start of a sentence and within one.
fn labels(field: Field) -> (names: (&'static str, &'static str))
    ensures
        names.0@ == label_of(field),
        names.1@ == inner_label_of(field),
{
    match field {
        Field::Desktop => ("Desktop theme", "desktop theme"),
        Field::Mouse => ("Mouse theme", "mouse theme"),
        Field::Controls => ("Controls theme", "controls theme"),
        Field::Icons => ("Icons theme", "icons theme"),
        Field::Borders => ("Borders theme", "borders theme"),
        Field::Wallpaper => ("Wallpaper", "wallpaper"),
        Field::Kitty => ("Kitty theme", "kitty theme"),
    }
}

/// The words for `change` once it was made.
pub fn success_message(change: &Change<'_>) -> (text: String)
    ensures
        text@ == success_text(change@),
{
    let (label, _) = labels(change.field);
    let mut text = label.to_owned();
    text.append(" set to: ");
    text.append(change.value);
    text
}

/// The words for `change` where it failed.
pub fn failure_message(change: &Change<'_>) -> (text: String)
    ensures
        text@ == failure_text(change@),
{
    let (_, label) = labels(change.field);
    let mut text = "Failed to set ".to_owned();
    text.append(label);
    text.append(" to: ");
    text.append(change.value);
    text
}

/// A text without its apostrophes: the other characters, in order.
pub open spec fn drop_apostrophes(text: Seq<char>) -> Seq<char> {
    text.filter(|c: char| c != '\'')
}

/// A text without the white space at its two ends.
pub uninterp spec fn trimmed(text: Seq<char>) -> Seq<char>;

/// `str::replace` of the apostrophe by nothing: every apostrophe is taken
/// out and the rest of the text stays as it is.
#[verifier::external_body]
fn without_apostrophes(text: &str) -> (stripped: String)
    ensures
        stripped@ == drop_apostrophes(text@),
{
    text.replace('\'', "")
}

/// `str::trim`: the text without its leading and trailing white space.
#[verifier::external_body]
fn trim_text(text: &str) -> (inner: String)
    ensures
        inner@ == trimmed(text@),
{
    text.trim().to_owned()
}

/// The value in what the settings store printed: the output without its
/// apostrophes and without the white space around it.
pub open spec fn printed_value(output: Seq<char>) -> Seq<char> {
    trimmed(drop_apostrophes(output))
}

/// Reads the answer of the settings store: the value in what it printed,
/// or the words of the failure as they came.
pub fn handle_get_result(result: Result<String, String>) -> (reading: Reading)
    ensures
        match result {
            Ok(output) => reading matches Ok(value) && value@ == printed_value(output@),
            Err(words) => reading == Err::<String, String>(words),
        },
{
    match result {
        Ok(output) => {
            let stripped = without_apostrophes(output.as_str());
            Ok(trim_text(stripped.as_str()))
        },
        Err(words) => Err(words),
    }
}

} // verus!
