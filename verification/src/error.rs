//! The errors that a command can end with.

use vstd::prelude::*;

verus! {

/// The kinds of failure. None of them ends the shell.
#[derive(Clone, Copy, Debug, PartialEq, Eq)]
pub enum ErrorKind {
    /// A quote was opened and never closed; the line is discarded.
    Parse,
    /// The command is no builtin and is not on the search path.
    CommandNotFound,
    /// A file or directory could not be opened or entered.
    Resource,
    /// An executable could not be launched.
    Execution,
    /// What a builtin was asked about does not exist.
    NotFound,
}

/// A failure: its kind and the message that is shown for it, without a
/// line ending.
#[derive(Debug)]
pub struct ShellError {
    pub kind: ErrorKind,
    pub message: String,
}

/// The mathematical value of a [`ShellError`].
pub struct ErrorView {
    pub kind: ErrorKind,
    pub message: Seq<char>,
}

impl View for ShellError {
    type V = ErrorView;

    open spec fn view(&self) -> ErrorView {
        ErrorView { kind: self.kind, message: self.message@ }
    }
}

/// The message for a line that ends inside a quote.
pub open spec fn parse_error_text() -> Seq<char> {
    "Error parsing input"@
}

/// The message for a command that is no builtin and is not on the search
/// path.
pub open spec fn command_not_found_text(command: Seq<char>) -> Seq<char> {
    command + ": command not found"@
}

/// The error for a line that ends inside a quote.
pub fn parse_error() -> (e: ShellError)
    ensures
        e@ == (ErrorView { kind: ErrorKind::Parse, message: parse_error_text() }),
{
    ShellError { kind: ErrorKind::Parse, message: String::from_str("Error parsing input") }
}

/// The error for a command that is no builtin and is not on the search
/// path.
pub fn command_not_found(command: &str) -> (e: ShellError)
    ensures
        e@ == (ErrorView {
            kind: ErrorKind::CommandNotFound,
            message: command_not_found_text(command@),
        }),
{
    let mut message = String::from_str(command);
    message.append(": command not found");
    ShellError { kind: ErrorKind::CommandNotFound, message }
}

/// The error for an executable that could not be launched; `reason` is what
/// the system said.
pub fn launch_failed(reason: &str) -> (e: ShellError)
    ensures
        e@ == (ErrorView { kind: ErrorKind::Execution, message: reason@ }),
{
    ShellError { kind: ErrorKind::Execution, message: String::from_str(reason) }
}

} // verus!
