//! What became of a subprocess, and what the runner makes of it.

use vstd::prelude::*;

verus! {

/// What the operating system reported of one attempt to start a program and
/// to wait for its end.
#[derive(Debug, PartialEq, Eq)]
pub enum Status {
    /// The program ran to its end; `success` tells whether it left with the
    /// exit code zero.
    Exited { success: bool },
    /// The program never started. `not_found` tells whether that was because
    /// no executable of its name could be found; `message` is the system's
    /// description of the error.
    SpawnFailed { not_found: bool, message: String },
}

/// What a [`Status`] holds, as mathematical values.
pub ghost enum StatusView {
    Exited { success: bool },
    SpawnFailed { not_found: bool, message: Seq<char> },
}

impl View for Status {
    type V = StatusView;

    open spec fn view(&self) -> StatusView {
        match self {
            Status::Exited { success } => StatusView::Exited { success: *success },
            Status::SpawnFailed { not_found, message } => StatusView::SpawnFailed {
                not_found: *not_found,
                message: message@,
            },
        }
    }
}

/// The three outcomes of an attempt to run a tool.
#[derive(Debug, PartialEq, Eq)]
pub enum Run {
    /// The tool ran and left with the exit code zero.
    Success,
    /// No executable of the tool's name was found: it is not installed.
    NotFound,
    /// Anything else, with the message to report.
    Failed(String),
}

/// What a [`Run`] holds, as mathematical values.
pub ghost enum RunView {
    Success,
    NotFound,
    Failed(Seq<char>),
}

impl View for Run {
    type V = RunView;

    open spec fn view(&self) -> RunView {
        match self {
            Run::Success => RunView::Success,
            Run::NotFound => RunView::NotFound,
            Run::Failed(message) => RunView::Failed(message@),
        }
    }
}

/// An overall result with its message as a sequence of characters.
pub open spec fn result_view(result: Result<(), String>) -> Result<(), Seq<char>> {
    match result {
        Ok(()) => Ok(()),
        Err(message) => Err(message@),
    }
}

/// The message for a tool that ran and left with a non-zero exit code.
pub open spec fn execution_failed(name: Seq<char>) -> Seq<char> {
    "execution of "@ + name + " failed"@
}

/// The message for a program that could not be started, with the system's
/// description of the cause.
pub open spec fn spawn_failed(name: Seq<char>, cause: Seq<char>) -> Seq<char> {
    "failed to run "@ + name + ": "@ + cause
}

/// The message for a tool that could not be installed.
pub open spec fn install_failed(name: Seq<char>) -> Seq<char> {
    "failed to install "@ + name
}

/// The outcome of an attempt to run the tool `name`, by what the system
/// reported of it.
pub open spec fn ran(name: Seq<char>, status: StatusView) -> RunView {
    match status {
        StatusView::Exited { success } => if success {
            RunView::Success
        } else {
            RunView::Failed(execution_failed(name))
        },
        StatusView::SpawnFailed { not_found, message } => if not_found {
            RunView::NotFound
        } else {
            RunView::Failed(spawn_failed(name, message))
        },
    }
}

/// The result of installing the tool `name`, by what the system reported of
/// the package manager's run. A package manager that is itself missing is
/// an error like any other that keeps it from starting.
pub open spec fn installed(name: Seq<char>, status: StatusView) -> Result<(), Seq<char>> {
    match status {
        StatusView::Exited { success } => if success {
            Ok(())
        } else {
            Err(install_failed(name))
        },
        StatusView::SpawnFailed { message, .. } => Err(spawn_failed("cargo"@, message)),
    }
}

/// Builds the message [`execution_failed`].
pub fn execution_failed_message(name: &str) -> (message: String)
    ensures
        message@ == execution_failed(name@),
{
    let mut message = String::from_str("execution of ");
    message.append(name);
    message.append(" failed");
    message
}

/// Builds the message [`spawn_failed`].
pub fn spawn_failed_message(name: &str, cause: &str) -> (message: String)
    ensures
        message@ == spawn_failed(name@, cause@),
{
    let mut message = String::from_str("failed to run ");
    message.append(name);
    message.append(": ");
    message.append(cause);
    message
}

/// Builds the message [`install_failed`].
pub fn install_failed_message(name: &str) -> (message: String)
    ensures
        message@ == install_failed(name@),
{
    let mut message = String::from_str("failed to install ");
    message.append(name);
    message
}

/// Classifies an attempt to run the tool `name`.
///
/// A zero exit code is [`Run::Success`]. A missing executable is
/// [`Run::NotFound`]. A non-zero exit code and every other error are
/// [`Run::Failed`], with a message that names the tool.
pub fn run(name: &str, status: Status) -> (outcome: Run)
    ensures
        outcome@ == ran(name@, status@),
{
    match status {
        Status::Exited { success } => {
            if success {
                Run::Success
            } else {
                Run::Failed(execution_failed_message(name))
            }
        },
        Status::SpawnFailed { not_found, message } => {
            if not_found {
                Run::NotFound
            } else {
                Run::Failed(spawn_failed_message(name, message.as_str()))
            }
        },
    }
}

/// Classifies the package manager's attempt to install the tool `name`.
///
/// A zero exit code is success. A non-zero exit code is the error
/// "failed to install" with the tool's name. A package manager that could
/// not be started is the error "failed to run cargo" with the cause.
pub fn install(name: &str, status: Status) -> (result: Result<(), String>)
    ensures
        result_view(result) == installed(name@, status@),
{
    match status {
        Status::Exited { success } => {
            if success {
                Ok(())
            } else {
                Err(install_failed_message(name))
            }
        },
        Status::SpawnFailed { message, .. } => {
            Err(spawn_failed_message("cargo", message.as_str()))
        },
    }
}

} // verus!
