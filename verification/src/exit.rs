//! How an invocation ends.

use crate::outcome::result_view;
use vstd::prelude::*;

verus! {

/// The end of an invocation: whether the process leaves with success, and
/// the one line that it prints to the error stream where it has one.
#[derive(Debug, PartialEq, Eq)]
pub struct Exit {
    /// The process leaves with the exit code zero.
    pub success: bool,
    /// The line for the error stream.
    pub diagnostic: Option<String>,
}

/// What an [`Exit`] holds, as mathematical values.
pub ghost struct ExitView {
    pub success: bool,
    pub diagnostic: Option<Seq<char>>,
}

impl View for Exit {
    type V = ExitView;

    open spec fn view(&self) -> ExitView {
        ExitView {
            success: self.success,
            diagnostic: match self.diagnostic {
                Some(line) => Some(line@),
                None => None,
            },
        }
    }
}

impl ExitView {
    /// The end of an invocation whose arguments name no mode: a failure
    /// with the diagnostic "undefined mode".
    pub open spec fn undefined_mode() -> ExitView {
        ExitView { success: false, diagnostic: Some("undefined mode"@) }
    }

    /// The end of an invocation whose session gave `result`: success
    /// without a word, or a failure with the error's message behind
    /// "error: ".
    pub open spec fn of(result: Result<(), Seq<char>>) -> ExitView {
        match result {
            Ok(()) => ExitView { success: true, diagnostic: None },
            Err(message) => ExitView { success: false, diagnostic: Some("error: "@ + message) },
        }
    }
}

impl Exit {
    /// The end of an invocation whose arguments were not accepted.
    pub fn undefined_mode() -> (exit: Exit)
        ensures
            exit@ == ExitView::undefined_mode(),
    {
        Exit { success: false, diagnostic: Some(String::from_str("undefined mode")) }
    }

    /// The end of an invocation whose session gave `result`.
    pub fn of(result: Result<(), String>) -> (exit: Exit)
        ensures
            exit@ == ExitView::of(result_view(result)),
    {
        match result {
            Ok(()) => Exit { success: true, diagnostic: None },
            Err(message) => {
                let mut line = String::from_str("error: ");
                line.append(message.as_str());
                Exit { success: false, diagnostic: Some(line) }
            },
        }
    }
}

} // verus!
