use miv::app::InputMode;
use miv::commands::Command;
use miv::input_handling::{
    get_valid_key_string_from_event, InputStack, KeyCode, KeyInput,
};
use miv::motions::Motion;

fn plain(code: KeyCode) -> KeyInput {
    KeyInput { code, ctrl: false }
}

#[test]
fn character_fast_path_in_insert_mode() {
    let mut stack = InputStack::new();
    let cmds = stack
        .handle_key_event(plain(KeyCode::Char('x')), &InputMode::Insert)
        .expect("a plain character in Insert mode emits a command at once");
    assert_eq!(cmds, vec![Command::EditorInsert("x".to_string())]);
}

#[test]
fn character_fast_path_in_command_mode() {
    let mut stack = InputStack::new();
    let cmds = stack
        .handle_key_event(plain(KeyCode::Char('w')), &InputMode::Command)
        .expect("a plain character in Command mode edits the command line");
    assert_eq!(cmds, vec![Command::CommandLineInsertChar('w')]);
}

#[test]
fn control_modified_characters_skip_the_fast_path() {
    let mut stack = InputStack::new();
    let r = stack.handle_key_event(
        KeyInput { code: KeyCode::Char('x'), ctrl: true },
        &InputMode::Insert,
    );
    // "ctrl+x" is not bound in the Insert keymap, so nothing is emitted.
    assert_eq!(r, None);
}

#[test]
fn multi_key_sequence_emits_only_when_complete() {
    let mut stack = InputStack::new();
    // "g" reaches an inner node: nothing is emitted yet.
    let first = stack.handle_key_event(plain(KeyCode::Char('g')), &InputMode::Normal);
    assert_eq!(first, None);
    // "e" completes the sequence: the bound commands come out in order.
    let second = stack
        .handle_key_event(plain(KeyCode::Char('e')), &InputMode::Normal)
        .expect("the completed sequence emits its commands");
    assert_eq!(second, vec![Command::EditorMove(Motion::LastWordEnd)]);
}

#[test]
fn unbound_key_at_inner_node_resets_and_emits_nothing() {
    let mut stack = InputStack::new();
    assert_eq!(stack.handle_key_event(plain(KeyCode::Char('g')), &InputMode::Normal), None);
    // "z" is unbound under "g": the sequence dies silently.
    assert_eq!(stack.handle_key_event(plain(KeyCode::Char('z')), &InputMode::Normal), None);
    // The resolver is back at the root: a fresh "g" starts a sequence again,
    // and completing it still works.
    assert_eq!(stack.handle_key_event(plain(KeyCode::Char('g')), &InputMode::Normal), None);
    let done = stack
        .handle_key_event(plain(KeyCode::Char('E')), &InputMode::Normal)
        .expect("the fresh sequence completes");
    assert_eq!(done, vec![Command::EditorMove(Motion::LastWordProperEnd)]);
}

#[test]
fn single_key_bindings_resolve_immediately() {
    let mut stack = InputStack::new();
    let cmds = stack
        .handle_key_event(plain(KeyCode::Char('i')), &InputMode::Normal)
        .expect("'i' switches to Insert mode");
    assert_eq!(cmds, vec![Command::ChangeInputMode(InputMode::Insert)]);
    let cmds = stack
        .handle_key_event(plain(KeyCode::Char('w')), &InputMode::Normal)
        .expect("'w' moves to the next word start");
    assert_eq!(cmds, vec![Command::EditorMove(Motion::NextWordStart)]);
}

#[test]
fn unrecognized_keys_are_dropped() {
    let mut stack = InputStack::new();
    assert_eq!(stack.handle_key_event(plain(KeyCode::Other), &InputMode::Normal), None);
    assert_eq!(stack.handle_key_event(plain(KeyCode::Char('q')), &InputMode::Normal), None);
}

#[test]
fn key_tokens_are_canonicalized() {
    assert_eq!(
        get_valid_key_string_from_event(plain(KeyCode::Backspace)),
        Some("back".to_string())
    );
    assert_eq!(get_valid_key_string_from_event(plain(KeyCode::Esc)), Some("esc".to_string()));
    assert_eq!(
        get_valid_key_string_from_event(plain(KeyCode::Char('a'))),
        Some("a".to_string())
    );
    assert_eq!(
        get_valid_key_string_from_event(KeyInput { code: KeyCode::Char('a'), ctrl: true }),
        Some("ctrl+a".to_string())
    );
    assert_eq!(get_valid_key_string_from_event(plain(KeyCode::Other)), None);
}

#[test]
fn escape_leaves_insert_mode() {
    let mut stack = InputStack::new();
    let cmds = stack
        .handle_key_event(plain(KeyCode::Esc), &InputMode::Insert)
        .expect("escape is bound in Insert mode");
    assert_eq!(cmds[0], Command::ChangeInputMode(InputMode::Normal));
}
