use state::error::OpError;
use state::key::KeyCode;
use state::mode::Mode;
use state::{next_op, EditorState, Op};

fn state_after(keys: &[KeyCode]) -> EditorState {
    let mut editor_state = EditorState::default();
    for key in keys {
        editor_state.update(*key);
    }
    editor_state
}

fn is_unknown(outcome: &Result<Op, OpError>, key: KeyCode) -> bool {
    match outcome {
        Err(OpError::UnknownKeyCodeError { code }) => *code == key,
        _ => false,
    }
}

#[test]
fn unknown_keys_resolve_to_unknown_key_errors() {
    let command = Mode::CommandLine { command: String::from("w") };
    assert!(is_unknown(&next_op(&Mode::Normal, KeyCode::Char('x')), KeyCode::Char('x')));
    assert!(is_unknown(&next_op(&Mode::Normal, KeyCode::Esc), KeyCode::Esc));
    assert!(is_unknown(&next_op(&Mode::Normal, KeyCode::Enter), KeyCode::Enter));
    assert!(is_unknown(&next_op(&Mode::Insert, KeyCode::Backspace), KeyCode::Backspace));
    assert!(is_unknown(&next_op(&Mode::Insert, KeyCode::Left), KeyCode::Left));
    assert!(is_unknown(&next_op(&command, KeyCode::F(5)), KeyCode::F(5)));
    assert!(is_unknown(&next_op(&command, KeyCode::Tab), KeyCode::Tab));
}

#[test]
fn unknown_key_returns_every_mode_to_normal() {
    for keys in [
        vec![KeyCode::Char('x')],
        vec![KeyCode::Char('i'), KeyCode::Up],
        vec![KeyCode::Char(':'), KeyCode::Char('w'), KeyCode::Delete],
    ] {
        let editor_state = state_after(&keys);
        let last = keys[keys.len() - 1];
        assert_eq!(editor_state.mode, Mode::Normal);
        assert_eq!(
            editor_state.error,
            Some(OpError::UnknownKeyCodeError { code: last })
        );
    }
}

#[test]
fn apply_of_an_error_sets_normal_mode() {
    let mut editor_state = state_after(&[KeyCode::Char(':'), KeyCode::Char('x')]);
    let outcome = next_op(&editor_state.mode, KeyCode::Home);
    editor_state.apply(outcome);
    assert_eq!(editor_state.mode, Mode::Normal);
    assert_eq!(
        editor_state.error,
        Some(OpError::UnknownKeyCodeError { code: KeyCode::Home })
    );
}

#[test]
fn colon_q_enter_quits() {
    let editor_state = state_after(&[KeyCode::Char(':'), KeyCode::Char('q'), KeyCode::Enter]);
    assert!(editor_state.quit);
    assert!(editor_state.error.is_none());
}

#[test]
fn colon_i_enter_is_an_invalid_command() {
    let editor_state = state_after(&[KeyCode::Char(':'), KeyCode::Char('i'), KeyCode::Enter]);
    assert_eq!(
        editor_state.error,
        Some(OpError::InvalidCommandError { command: String::from("i") })
    );
    assert_eq!(editor_state.mode, Mode::Normal);
    assert!(!editor_state.quit);
}

#[test]
fn command_line_collects_and_drops_characters() {
    let editor_state = state_after(&[
        KeyCode::Char(':'),
        KeyCode::Char('w'),
        KeyCode::Char('q'),
        KeyCode::Backspace,
        KeyCode::Char('é'),
    ]);
    assert_eq!(
        editor_state.mode,
        Mode::CommandLine { command: String::from("wé") }
    );
    let emptied = state_after(&[KeyCode::Char(':'), KeyCode::Backspace, KeyCode::Backspace]);
    assert_eq!(emptied.mode, Mode::CommandLine { command: String::new() });
}

#[test]
fn escape_leaves_command_line_and_clears_the_error() {
    let editor_state = state_after(&[
        KeyCode::Char('z'),
        KeyCode::Char(':'),
        KeyCode::Char('w'),
        KeyCode::Esc,
    ]);
    assert_eq!(editor_state.mode, Mode::Normal);
    assert!(editor_state.error.is_none());
}

#[test]
fn quit_keeps_the_mode() {
    let mut editor_state = state_after(&[KeyCode::Char(':'), KeyCode::Char('q')]);
    editor_state.apply(Ok(Op::Quit));
    assert!(editor_state.quit);
    assert_eq!(editor_state.mode, Mode::CommandLine { command: String::from("q") });
}

#[test]
fn normal_mode_steps_back_one_cluster_but_not_below_zero() {
    let editor_state = state_after(&[KeyCode::Char('i'), KeyCode::Esc]);
    assert_eq!(editor_state.buffer.grapheme_index, 0);
    let typed = state_after(&[
        KeyCode::Char('i'),
        KeyCode::Char('a'),
        KeyCode::Char('b'),
        KeyCode::Esc,
    ]);
    assert_eq!(typed.buffer.text, "ab");
    assert_eq!(typed.buffer.grapheme_index, 1);
}

#[test]
fn append_mode_steps_past_the_cluster_under_the_cursor() {
    let mut editor_state = EditorState::default();
    editor_state.buffer.text = String::from("e\u{301}x");
    editor_state.update(KeyCode::Char('a'));
    assert_eq!(editor_state.mode, Mode::Insert);
    assert_eq!(editor_state.buffer.grapheme_index, 1);
    editor_state.update(KeyCode::Char('y'));
    assert_eq!(editor_state.buffer.text, "e\u{301}yx");
    let mut at_end = EditorState::default();
    at_end.buffer.text = String::from("e\u{301}x");
    at_end.buffer.grapheme_index = 2;
    at_end.update(KeyCode::Char('a'));
    assert_eq!(at_end.buffer.grapheme_index, 2);
}

#[test]
fn bigword_keys_move_the_cursor() {
    let mut editor_state = EditorState::default();
    editor_state.buffer.text = String::from("one two  three");
    editor_state.update(KeyCode::Char('W'));
    assert_eq!(editor_state.buffer.grapheme_index, 4);
    editor_state.update(KeyCode::Char('W'));
    assert_eq!(editor_state.buffer.grapheme_index, 9);
    editor_state.update(KeyCode::Char('B'));
    assert_eq!(editor_state.buffer.grapheme_index, 4);
    assert_eq!(editor_state.mode, Mode::Normal);
}

#[test]
fn successful_key_clears_the_error() {
    let editor_state = state_after(&[KeyCode::Char('z'), KeyCode::Char('i')]);
    assert!(editor_state.error.is_none());
    assert_eq!(editor_state.mode, Mode::Insert);
}

#[test]
fn error_messages() {
    let invalid = OpError::InvalidCommandError { command: String::from("wq!") };
    assert_eq!(invalid.message(), "Invalid command: wq!");
    let unknown = OpError::UnknownKeyCodeError { code: KeyCode::Tab };
    assert_eq!(unknown.message(), "Unknown key code");
}

#[test]
fn mode_names() {
    assert_eq!(Mode::Normal.name(), "NORMAL");
    assert_eq!(Mode::Insert.name(), "INSERT");
    assert_eq!(Mode::CommandLine { command: String::from("q") }.name(), "COMMAND");
}

#[test]
fn default_state() {
    let editor_state = EditorState::default();
    assert_eq!(editor_state.mode, Mode::Normal);
    assert_eq!(editor_state.buffer.text, "");
    assert_eq!(editor_state.buffer.grapheme_index, 0);
    assert!(!editor_state.quit);
    assert!(editor_state.error.is_none());
}
