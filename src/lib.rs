//! The editing core of a modal, vi-like text editor: a state machine that turns
//! key presses into editing operations, and a text buffer whose cursor and
//! bigword motions work on grapheme clusters.
pub mod buffer;
pub mod editor;
pub mod error;
pub mod key;
pub mod mode;

pub use editor::{next_op, EditorState, Op};
