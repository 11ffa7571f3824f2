//! The file picker's answer, as the caller of the dialog gets it.

use vstd::prelude::*;
use vstd::string::StringExecFns;

verus! {

/// The name of the picker's one filter.
pub const FILTER_NAME: &'static str = "PDF Files";

/// The one file extension that the picker lets through.
pub const FILTER_EXTENSION: &'static str = "pdf";

/// The error when the dialog went away without an answer.
pub const NO_ANSWER: &'static str = "Failed to receive file path";

/// What the dialog's answer means to the caller.
///
/// `received` is `None` when the dialog went away without answering, and
/// otherwise holds the path that the user chose, or `None` if the user
/// cancelled. A cancelled dialog is no error.
pub fn picked(received: Option<Option<String>>) -> (result: Result<Option<String>, String>)
    ensures
        match received {
            Some(choice) => result == Ok::<Option<String>, String>(choice),
            None => result matches Err(text) && text@ == NO_ANSWER@,
        },
{
    match received {
        Some(choice) => Ok(choice),
        None => Err(String::from_str(NO_ANSWER)),
    }
}

} // verus!
