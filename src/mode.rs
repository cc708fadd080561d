//! The editor's modes.
use vstd::prelude::*;

verus! {

/// The mode the editor is in. Command-line mode carries the command typed so
/// far, so that no other mode can hold one.
#[derive(Debug)]
pub enum Mode {
    Normal,
    Insert,
    CommandLine { command: String },
}

/// A mode, with the command as a sequence of characters.
pub enum ModeView {
    Normal,
    Insert,
    CommandLine { command: Seq<char> },
}

impl View for Mode {
    type V = ModeView;

    open spec fn view(&self) -> ModeView {
        match self {
            Mode::Normal => ModeView::Normal,
            Mode::Insert => ModeView::Insert,
            Mode::CommandLine { command } => ModeView::CommandLine { command: command@ },
        }
    }
}

impl PartialEq for Mode {
    fn eq(&self, other: &Mode) -> (r: bool) {
        match (self, other) {
            (Mode::Normal, Mode::Normal) => true,
            (Mode::Insert, Mode::Insert) => true,
            (Mode::CommandLine { command: a }, Mode::CommandLine { command: b }) => *a == *b,
            _ => false,
        }
    }
}

impl vstd::std_specs::cmp::PartialEqSpecImpl for Mode {
    open spec fn obeys_eq_spec() -> bool {
        true
    }

    open spec fn eq_spec(&self, other: &Mode) -> bool {
        self@ == other@
    }
}

impl Mode {
    /// The name that a status line shows for the mode.
    pub fn name(&self) -> (r: &'static str)
        ensures
            self is Normal ==> r@ == "NORMAL"@,
            self is Insert ==> r@ == "INSERT"@,
            self is CommandLine ==> r@ == "COMMAND"@,
    {
        match self {
            Mode::Normal => "NORMAL",
            Mode::Insert => "INSERT",
            Mode::CommandLine { .. } => "COMMAND",
        }
    }
}

} // verus!
