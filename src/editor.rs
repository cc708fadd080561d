//! The editor's state machine: a key press is first resolved, against the
//! current mode, into an operation or an error, and the outcome is then
//! applied to the editor's state.
use crate::buffer::motions::{backward_stop, forward_stop};
use crate::buffer::{push_char, Buffer};
use crate::error::{OpError, OpErrorView};
use crate::key::KeyCode;
use crate::mode::{Mode, ModeView};
use vstd::prelude::*;
use vstd::string::{StrSliceExecFns, StringExecFns};

verus! {

/// What one key press asks of the editor.
#[derive(Debug)]
pub enum Op {
    EnterCommandMode,
    EnterInsertMode,
    /// Insert mode, with the cursor moved past the cluster under it.
    EnterInsertModeAppend,
    EnterNormalMode,
    Quit,
    /// Replace the command line with `command`, one character longer.
    PushToCommand { command: String },
    /// Replace the command line with `command`, one character shorter.
    PopFromCommand { command: String },
    InsertChar { c: char },
    MoveBigWordForward,
    MoveBigWordBackward,
}

/// An operation, with commands as sequences of characters.
pub enum OpView {
    EnterCommandMode,
    EnterInsertMode,
    EnterInsertModeAppend,
    EnterNormalMode,
    Quit,
    PushToCommand { command: Seq<char> },
    PopFromCommand { command: Seq<char> },
    InsertChar { c: char },
    MoveBigWordForward,
    MoveBigWordBackward,
}

impl View for Op {
    type V = OpView;

    open spec fn view(&self) -> OpView {
        match self {
            Op::EnterCommandMode => OpView::EnterCommandMode,
            Op::EnterInsertMode => OpView::EnterInsertMode,
            Op::EnterInsertModeAppend => OpView::EnterInsertModeAppend,
            Op::EnterNormalMode => OpView::EnterNormalMode,
            Op::Quit => OpView::Quit,
            Op::PushToCommand { command } => OpView::PushToCommand { command: command@ },
            Op::PopFromCommand { command } => OpView::PopFromCommand { command: command@ },
            Op::InsertChar { c } => OpView::InsertChar { c: *c },
            Op::MoveBigWordForward => OpView::MoveBigWordForward,
            Op::MoveBigWordBackward => OpView::MoveBigWordBackward,
        }
    }
}

/// The outcome of resolving a key, seen through the views.
pub open spec fn outcome_view(r: Result<Op, OpError>) -> Result<OpView, OpErrorView> {
    match r {
        Ok(op) => Ok(op@),
        Err(e) => Err(e@),
    }
}

/// The error that an editor shows, seen through the views.
pub open spec fn error_view(e: Option<OpError>) -> Option<OpErrorView> {
    match e {
        Some(e) => Some(e@),
        None => None,
    }
}

/// The transition table: what key `k` asks for in mode `m`.
pub open spec fn resolve(m: ModeView, k: KeyCode) -> Result<OpView, OpErrorView> {
    let unknown = Err(OpErrorView::UnknownKeyCodeError { code: k });
    match k {
        KeyCode::Char(c) => match m {
            ModeView::Normal => {
                if c == ':' {
                    Ok(OpView::EnterCommandMode)
                } else if c == 'i' {
                    Ok(OpView::EnterInsertMode)
                } else if c == 'a' {
                    Ok(OpView::EnterInsertModeAppend)
                } else if c == 'W' {
                    Ok(OpView::MoveBigWordForward)
                } else if c == 'B' {
                    Ok(OpView::MoveBigWordBackward)
                } else {
                    unknown
                }
            },
            ModeView::Insert => Ok(OpView::InsertChar { c }),
            ModeView::CommandLine { command } => Ok(
                OpView::PushToCommand { command: command.push(c) },
            ),
        },
        KeyCode::Backspace => match m {
            ModeView::CommandLine { command } => Ok(
                OpView::PopFromCommand {
                    command: if command.len() > 0 {
                        command.drop_last()
                    } else {
                        command
                    },
                },
            ),
            _ => unknown,
        },
        KeyCode::Enter => match m {
            ModeView::CommandLine { command } => {
                if command == seq!['q'] {
                    Ok(OpView::Quit)
                } else {
                    Err(OpErrorView::InvalidCommandError { command })
                }
            },
            _ => unknown,
        },
        KeyCode::Esc => match m {
            ModeView::Normal => unknown,
            _ => Ok(OpView::EnterNormalMode),
        },
        _ => unknown,
    }
}

/// Whether the transition table has a row for key `k` in mode `m`.
pub open spec fn in_table(m: ModeView, k: KeyCode) -> bool {
    match k {
        KeyCode::Char(c) => m is Normal ==> (c == ':' || c == 'i' || c == 'a' || c == 'W' || c
            == 'B'),
        KeyCode::Backspace => m is CommandLine,
        KeyCode::Enter => m is CommandLine,
        KeyCode::Esc => !(m is Normal),
        _ => false,
    }
}

/// Resolves key `code` against `mode` into the operation it asks for, or the
/// error that it raises.
pub fn next_op(mode: &Mode, code: KeyCode) -> (r: Result<Op, OpError>)
    ensures
        outcome_view(r) == resolve(mode@, code),
{
    match (mode, code) {
        (Mode::Normal, KeyCode::Char(':')) => Ok(Op::EnterCommandMode),
        (Mode::Normal, KeyCode::Char('i')) => Ok(Op::EnterInsertMode),
        (Mode::Normal, KeyCode::Char('a')) => Ok(Op::EnterInsertModeAppend),
        (Mode::CommandLine { command }, KeyCode::Char(c)) => {
            let mut command = command.clone();
            push_char(&mut command, c);
            Ok(Op::PushToCommand { command })
        },
        (Mode::CommandLine { command }, KeyCode::Backspace) => {
            let s = command.as_str();
            let n = s.unicode_len();
            let shorter = if n > 0 {
                String::from_str(s.substring_char(0, n - 1))
            } else {
                String::new()
            };
            proof {
                if n > 0 {
                    assert(shorter@ =~= command@.drop_last());
                } else {
                    assert(shorter@ =~= command@);
                }
            }
            Ok(Op::PopFromCommand { command: shorter })
        },
        (Mode::CommandLine { command }, KeyCode::Enter) => {
            let s = command.as_str();
            if s.unicode_len() == 1 && s.get_char(0) == 'q' {
                proof {
                    assert(command@ =~= seq!['q']);
                }
                Ok(Op::Quit)
            } else {
                proof {
                    if command@ == seq!['q'] {
                        assert(command@[0] == 'q');
                    }
                }
                Err(OpError::InvalidCommandError { command: command.clone() })
            }
        },
        (Mode::Normal, KeyCode::Char('W')) => Ok(Op::MoveBigWordForward),
        (Mode::Normal, KeyCode::Char('B')) => Ok(Op::MoveBigWordBackward),
        (Mode::Insert, KeyCode::Esc) | (Mode::CommandLine { .. }, KeyCode::Esc) => Ok(
            Op::EnterNormalMode,
        ),
        (Mode::Insert, KeyCode::Char(c)) => Ok(Op::InsertChar { c }),
        (_, code) => Err(OpError::UnknownKeyCodeError { code }),
    }
}

/// Everything that the editor holds between two key presses.
pub struct EditorState {
    pub mode: Mode,
    pub buffer: Buffer,
    /// Set once the user asked to leave; the loop around the editor stops.
    pub quit: bool,
    /// The error of the last key press, until a later one succeeds.
    pub error: Option<OpError>,
}

impl Default for EditorState {
    fn default() -> (r: EditorState)
        ensures
            r.mode@ == ModeView::Normal,
            r.buffer.text@ == Seq::<char>::empty(),
            r.buffer.grapheme_index == 0,
            !r.quit,
            r.error is None,
    {
        EditorState { mode: Mode::Normal, buffer: Buffer::default(), quit: false, error: None }
    }
}

/// The text and the cursor are as they were.
pub open spec fn same_buffer(pre: &Buffer, post: &Buffer) -> bool {
    post.text@ == pre.text@ && post.grapheme_index == pre.grapheme_index
}

/// `post` is what applying `outcome` to `pre` leaves.
pub open spec fn applied(
    pre: &EditorState,
    outcome: Result<OpView, OpErrorView>,
    post: &EditorState,
) -> bool {
    let b = &pre.buffer;
    match outcome {
        Ok(OpView::EnterCommandMode) => {
            &&& post.mode@ == ModeView::CommandLine { command: Seq::empty() }
            &&& post.error is None
            &&& same_buffer(b, &post.buffer)
            &&& post.quit == pre.quit
        },
        Ok(OpView::EnterInsertMode) => {
            &&& post.mode@ == ModeView::Insert
            &&& post.error is None
            &&& same_buffer(b, &post.buffer)
            &&& post.quit == pre.quit
        },
        Ok(OpView::EnterInsertModeAppend) => {
            &&& post.mode@ == ModeView::Insert
            &&& post.error is None
            &&& post.buffer.text@ == b.text@
            &&& post.buffer.grapheme_index == if b.grapheme_index < b.clusters().len() {
                b.grapheme_index + 1
            } else {
                b.grapheme_index as int
            }
            &&& post.quit == pre.quit
        },
        Ok(OpView::EnterNormalMode) => {
            &&& post.mode@ == ModeView::Normal
            &&& post.error is None
            &&& post.buffer.text@ == b.text@
            &&& post.buffer.grapheme_index == if b.grapheme_index > 0 {
                b.grapheme_index - 1
            } else {
                0
            }
            &&& post.quit == pre.quit
        },
        Ok(OpView::Quit) => {
            &&& post.mode@ == pre.mode@
            &&& error_view(post.error) == error_view(pre.error)
            &&& same_buffer(b, &post.buffer)
            &&& post.quit
        },
        Ok(OpView::PushToCommand { command }) => {
            &&& post.mode@ == ModeView::CommandLine { command }
            &&& post.error is None
            &&& same_buffer(b, &post.buffer)
            &&& post.quit == pre.quit
        },
        Ok(OpView::PopFromCommand { command }) => {
            &&& post.mode@ == ModeView::CommandLine { command }
            &&& post.error is None
            &&& same_buffer(b, &post.buffer)
            &&& post.quit == pre.quit
        },
        Ok(OpView::InsertChar { c }) => {
            &&& post.mode@ == pre.mode@
            &&& error_view(post.error) == error_view(pre.error)
            &&& post.buffer.text@ == b.text@.insert(b.cursor_chars(), c)
            &&& post.buffer.grapheme_index == b.cursor() + 1
            &&& post.quit == pre.quit
        },
        Ok(OpView::MoveBigWordForward) => {
            &&& post.mode@ == pre.mode@
            &&& error_view(post.error) == error_view(pre.error)
            &&& post.buffer.text@ == b.text@
            &&& post.buffer.grapheme_index == forward_stop(b.clusters(), b.cursor())
            &&& post.quit == pre.quit
        },
        Ok(OpView::MoveBigWordBackward) => {
            &&& post.mode@ == pre.mode@
            &&& error_view(post.error) == error_view(pre.error)
            &&& post.buffer.text@ == b.text@
            &&& post.buffer.grapheme_index == backward_stop(b.clusters(), b.cursor())
            &&& post.quit == pre.quit
        },
        Err(e) => {
            &&& post.mode@ == ModeView::Normal
            &&& error_view(post.error) == Some(e)
            &&& same_buffer(b, &post.buffer)
            &&& post.quit == pre.quit
        },
    }
}

/// A key with no row in the transition table for the current mode resolves
/// to an unknown-key error that carries the key, and applying that outcome
/// puts the editor back in normal mode with the error on display.
pub proof fn lemma_unknown_key_returns_to_normal(pre: &EditorState, k: KeyCode, post: &EditorState)
    requires
        !in_table(pre.mode@, k),
        applied(pre, resolve(pre.mode@, k), post),
    ensures
        resolve(pre.mode@, k) == Err::<OpView, OpErrorView>(
            OpErrorView::UnknownKeyCodeError { code: k },
        ),
        post.mode@ == ModeView::Normal,
        error_view(post.error) == Some(OpErrorView::UnknownKeyCodeError { code: k }),
{
}

impl EditorState {
    /// Applies the outcome of a resolved key press: an operation changes the
    /// mode, the command line or the buffer; an error is kept for display and
    /// returns the editor to normal mode.
    pub fn apply(&mut self, outcome: Result<Op, OpError>)
        requires
            outcome matches Ok(Op::InsertChar { .. }) ==> old(self).buffer.grapheme_index
                < usize::MAX,
        ensures
            applied(old(self), outcome_view(outcome), final(self)),
    {
        match outcome {
            Ok(Op::EnterCommandMode) => {
                self.mode = Mode::CommandLine { command: String::new() };
                self.error = None;
            },
            Ok(Op::EnterInsertModeAppend) => {
                self.mode = Mode::Insert;
                if self.buffer.grapheme_index < self.buffer.grapheme_count() {
                    self.buffer.grapheme_index = self.buffer.grapheme_index + 1;
                }
                self.error = None;
            },
            Ok(Op::EnterInsertMode) => {
                self.mode = Mode::Insert;
                self.error = None;
            },
            Ok(Op::EnterNormalMode) => {
                self.mode = Mode::Normal;
                self.error = None;
                if self.buffer.grapheme_index > 0 {
                    self.buffer.grapheme_index = self.buffer.grapheme_index - 1;
                }
            },
            Ok(Op::Quit) => self.quit = true,
            Ok(Op::PushToCommand { command }) => {
                self.mode = Mode::CommandLine { command };
                self.error = None;
            },
            Ok(Op::PopFromCommand { command }) => {
                self.mode = Mode::CommandLine { command };
                self.error = None;
            },
            Ok(Op::MoveBigWordForward) => {
                self.buffer.move_big_word_forwards();
            },
            Ok(Op::MoveBigWordBackward) => {
                self.buffer.move_big_word_backwards();
            },
            Ok(Op::InsertChar { c }) => {
                self.buffer.insert(c);
            },
            Err(error) => {
                self.error = Some(error);
                self.mode = Mode::Normal;
            },
        }
    }

    /// Handles one key press: resolves it against the current mode and
    /// applies the outcome.
    pub fn update(&mut self, code: KeyCode) -> (r: &mut EditorState)
        requires
            old(self).mode is Insert && code is Char ==> old(self).buffer.grapheme_index
                < usize::MAX,
        ensures
            applied(old(self), resolve(old(self).mode@, code), r),
            *final(self) == *final(r),
    {
        let outcome = next_op(&self.mode, code);
        self.apply(outcome);
        self
    }
}

} // verus!
