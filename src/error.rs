//! What can go wrong when a key is resolved.
use crate::key::KeyCode;
use vstd::prelude::*;
use vstd::string::StringExecFns;

verus! {

/// Why a key press led to no operation.
#[derive(Clone, Debug)]
pub enum OpError {
    /// The command line held a command that the editor does not know.
    InvalidCommandError { command: String },
    /// The key means nothing in the current mode.
    UnknownKeyCodeError { code: KeyCode },
}

/// An error, with the command as a sequence of characters.
pub enum OpErrorView {
    InvalidCommandError { command: Seq<char> },
    UnknownKeyCodeError { code: KeyCode },
}

impl View for OpError {
    type V = OpErrorView;

    open spec fn view(&self) -> OpErrorView {
        match self {
            OpError::InvalidCommandError { command } => OpErrorView::InvalidCommandError {
                command: command@,
            },
            OpError::UnknownKeyCodeError { code } => OpErrorView::UnknownKeyCodeError { code: *code },
        }
    }
}

impl PartialEq for OpError {
    fn eq(&self, other: &OpError) -> (r: bool) {
        match (self, other) {
            (
                OpError::InvalidCommandError { command: a },
                OpError::InvalidCommandError { command: b },
            ) => *a == *b,
            (OpError::UnknownKeyCodeError { code: a }, OpError::UnknownKeyCodeError { code: b }) => {
                *a == *b
            },
            _ => false,
        }
    }
}

impl vstd::std_specs::cmp::PartialEqSpecImpl for OpError {
    open spec fn obeys_eq_spec() -> bool {
        true
    }

    open spec fn eq_spec(&self, other: &OpError) -> bool {
        self@ == other@
    }
}

impl OpError {
    /// The one-line message that the editor shows for the error.
    pub fn message(&self) -> (r: String)
        ensures
            self matches OpError::InvalidCommandError { command } ==> r@ == "Invalid command: "@
                + command@,
            self is UnknownKeyCodeError ==> r@ == "Unknown key code"@,
    {
        match self {
            OpError::InvalidCommandError { command } => {
                let mut msg = String::from_str("Invalid command: ");
                msg.append(command.as_str());
                msg
            },
            OpError::UnknownKeyCodeError { .. } => String::from_str("Unknown key code"),
        }
    }
}

} // verus!
