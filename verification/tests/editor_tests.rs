use miv::app::InputMode;
use miv::editor::EditorBuffer;
use miv::motions::Motion;

#[test]
fn normal_mode_newline_backoff() {
    // Content "ab\ncd": LineEnd from 0 lands on the newline at index 2, and
    // Normal mode backs the cursor onto index 1.
    let mut eb = EditorBuffer::new("ab\ncd", None);
    eb.move_cursor(&Motion::LineEnd, InputMode::Normal);
    assert_eq!(eb.cursor_index, 1);
}

#[test]
fn insert_mode_rests_on_newlines() {
    let mut eb = EditorBuffer::new("ab\ncd", None);
    eb.move_cursor(&Motion::LineEnd, InputMode::Insert);
    assert_eq!(eb.cursor_index, 2);
}

#[test]
fn insert_advances_the_cursor() {
    let mut eb = EditorBuffer::new("bc", None);
    eb.insert("a".to_string(), InputMode::Insert);
    assert_eq!(eb.gap_buffer.get_text_as_string(), "abc");
    assert_eq!(eb.cursor_index, 1);
    eb.insert("x".to_string(), InputMode::Insert);
    assert_eq!(eb.gap_buffer.get_text_as_string(), "axbc");
    assert_eq!(eb.cursor_index, 2);
}

#[test]
fn delete_forward_and_backward_agree() {
    // Deleting via a forward motion and via the equivalent backward motion
    // leaves the same text and the same cursor.
    let mut forward = EditorBuffer::new("abcdef", None);
    forward.cursor_index = 2;
    forward.delete(Motion::CharForward, InputMode::Insert);

    let mut backward = EditorBuffer::new("abcdef", None);
    backward.cursor_index = 3;
    backward.delete(Motion::CharBackward, InputMode::Insert);

    assert_eq!(forward.gap_buffer.get_text_as_string(), "abdef");
    assert_eq!(
        forward.gap_buffer.get_text_as_string(),
        backward.gap_buffer.get_text_as_string()
    );
    assert_eq!(forward.cursor_index, 2);
    assert_eq!(forward.cursor_index, backward.cursor_index);
}

#[test]
fn delete_to_word_start_removes_the_gap_between() {
    let mut eb = EditorBuffer::new("Hello World", None);
    eb.delete(Motion::NextWordStart, InputMode::Insert);
    assert_eq!(eb.gap_buffer.get_text_as_string(), "World");
    assert_eq!(eb.cursor_index, 0);
}

#[test]
fn empty_buffer_motions_leave_the_editor_cursor_at_zero() {
    let motions = [
        Motion::CharForward,
        Motion::CharBackward,
        Motion::NextWordStart,
        Motion::NextWordProperStart,
        Motion::NextWordEnd,
        Motion::NextWordProperEnd,
        Motion::LastWordStart,
        Motion::LastWordProperStart,
        Motion::LastWordEnd,
        Motion::LastWordProperEnd,
        Motion::NextLineStart,
        Motion::LineStart,
        Motion::LineEnd,
    ];
    for motion in motions.iter() {
        let mut eb = EditorBuffer::new("", None);
        eb.move_cursor(motion, InputMode::Normal);
        assert_eq!(eb.cursor_index, 0);
    }
}

#[test]
fn highlights_cover_rust_source() {
    let eb = EditorBuffer::new("fn main() {}", None);
    assert!(!eb.highlight_groups.is_empty());
    for span in eb.highlight_groups.iter() {
        assert!(span.start <= span.end);
        assert!(span.end <= "fn main() {}".len());
    }
}

#[test]
fn path_is_kept() {
    let eb = EditorBuffer::new("x", Some("notes.txt".to_string()));
    assert_eq!(eb.path, Some("notes.txt".to_string()));
}
