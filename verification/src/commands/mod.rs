//! Command-level logic of the desktop shell: safe command errors and the decisions
//! behind settings, meetings, imports and processing tasks.

use vstd::prelude::*;

use crate::text::copy_str;

pub mod settings;
pub mod ingest;
pub mod meetings;
pub mod tasks;

verus! {

/// A command error that is safe to show: no underlying error text and no meeting content.
#[derive(Debug)]
pub struct CommandError {
    pub code: &'static str,
    pub safe_message: String,
    pub retryable: bool,
}

/// The view of a command error.
pub struct CommandErrorV {
    pub code: Seq<char>,
    pub safe_message: Seq<char>,
    pub retryable: bool,
}

impl View for CommandError {
    type V = CommandErrorV;

    open spec fn view(&self) -> CommandErrorV {
        CommandErrorV { code: self.code@, safe_message: self.safe_message@, retryable: self.retryable }
    }
}

/// The view of a command error built from its parts.
pub open spec fn command_error(code: Seq<char>, message: Seq<char>, retryable: bool) -> CommandErrorV {
    CommandErrorV { code, safe_message: message, retryable }
}

impl CommandError {
    /// A command error without underlying details.
    pub fn new(code: &'static str, safe_message: &str, retryable: bool) -> (r: Self)
        ensures
            r@ == command_error(code@, safe_message@, retryable),
    {
        CommandError { code, safe_message: copy_str(safe_message), retryable }
    }
}

} // verus!
