//! Why a catalog entry could not be read.

use vstd::prelude::*;

verus! {

/// A failure to read part of a catalog.
#[derive(Debug)]
pub enum ParseError {
    /// A structural failure, in the words of whoever found it.
    Message(String),
    /// A time that is not of the form `hh:mm`.
    InvalidDateFormat,
}

impl ParseError {
    /// The text of the failure.
    pub open spec fn spec_message(self) -> Seq<char> {
        match self {
            ParseError::Message(msg) => msg@,
            ParseError::InvalidDateFormat => "invalid time span format - it must be of form hh:mm"@,
        }
    }

    /// The text of the failure, for display.
    pub fn message(&self) -> (text: String)
        ensures
            text@ == self.spec_message(),
    {
        match self {
            ParseError::Message(msg) => msg.clone(),
            ParseError::InvalidDateFormat => {
                "invalid time span format - it must be of form hh:mm".to_owned()
            },
        }
    }
}

} // verus!
