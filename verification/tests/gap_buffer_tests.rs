use miv::gap_buffer::{created_text_round_trips, GapBuffer};

// More or less a smoke test to make sure we can create
#[test]
fn creation() {
    let gb = GapBuffer::with_data("Hello World");
    assert_eq!(&gb.get_text_as_string(), "Hello World");
    assert_eq!(gb.gap_length, 5);
    assert_eq!(gb.gap_start, 0);
}

#[test]
fn creation_multiline() {
    let multiline = "1\n2\n3";
    let gb = GapBuffer::with_data(multiline);
    assert_eq!(&gb.get_text_as_string(), "1\n2\n3");
    assert_eq!(gb.gap_length, 11);
    assert_eq!(gb.gap_start, 0);
}

// Check happy path movement logic
// I.e. moving to a valid position
#[test]
fn move_gap_within_bounds() {
    let mut gb = GapBuffer::with_data("Hello World");
    assert_eq!(&gb.get_text_as_string(), "Hello World");
    assert_eq!(gb.gap_length, 5);
    assert_eq!(gb.gap_start, 0);
    gb.move_gap(11);
    assert_eq!(&gb.get_text_as_string(), "Hello World");
    assert_eq!(gb.gap_length, 5);
    assert_eq!(gb.gap_start, 11);
    gb.move_gap(5);
    assert_eq!(&gb.get_text_as_string(), "Hello World");
    assert_eq!(gb.gap_length, 5);
    assert_eq!(gb.gap_start, 5);
}

// Check insertion
#[test]
fn insert_multi_character_string_smaller_than_gap_at_end() {
    let mut gb = GapBuffer::with_data("Hello World");
    let original_buffer_length = gb.buffer.len();
    let end = gb.data_length();
    gb.move_gap(end);
    gb.insert("!!!");
    assert_eq!(&gb.get_text_as_string(), "Hello World!!!");
    // Assert gap changed as expected, length of addition was 3
    assert_eq!(gb.gap_length, 2);
    assert_eq!(gb.gap_start, 14);
    // Make sure buffer stays the same length
    assert_eq!(gb.buffer.len(), original_buffer_length);
}

#[test]
fn insert_multi_character_string_smaller_than_gap_at_start() {
    let mut gb = GapBuffer::with_data("Hello World");
    let original_buffer_length = gb.buffer.len();
    gb.move_gap(0);
    gb.insert("Hi, ");
    assert_eq!(&gb.get_text_as_string(), "Hi, Hello World");
    // Assert gap changed as expected, length of addition was 4
    assert_eq!(gb.gap_length, 1);
    assert_eq!(gb.gap_start, 4);
    // Make sure buffer stays the same length
    assert_eq!(gb.buffer.len(), original_buffer_length);
}

#[test]
fn insert_multi_character_string_larger_than_gap_at_start() {
    let mut gb = GapBuffer::with_data("Hello World");
    let original_buffer_length = gb.buffer.len();
    let original_gap_length = gb.gap_length;
    let str_to_insert = "Hi there, ";
    gb.move_gap(0);
    gb.insert(str_to_insert);
    assert_eq!(&gb.get_text_as_string(), "Hi there, Hello World");
    // The whole grown gap minus the insertion is left: exactly the slack.
    assert_eq!(gb.gap_length, 1024);
    assert_eq!(gb.gap_start, 10);
    // The buffer grows by the excess over the old gap plus the slack.
    assert_eq!(
        gb.buffer.len(),
        original_buffer_length + (str_to_insert.len() - original_gap_length) + 1024
    );
    assert_eq!(gb.buffer.len(), 1045);
}

#[test]
fn delete_5_at_start() {
    let mut gb = GapBuffer::with_data("Hello World");
    gb.delete_at(5, 0);
    assert_eq!(&gb.get_text_as_string(), " World");
    assert_eq!(gb.gap_length, 10);
    assert_eq!(gb.gap_start, 0);
}

#[test]
fn round_trip_identity() {
    assert_eq!(created_text_round_trips(""), "");
    assert_eq!(created_text_round_trips("Hello World"), "Hello World");
    assert_eq!(created_text_round_trips("1\n2\n3"), "1\n2\n3");
    assert_eq!(created_text_round_trips("caf\u{e9} \u{1f600}"), "caf\u{e9} \u{1f600}");
}

#[test]
fn gap_invariant_across_operations() {
    let mut gb = GapBuffer::with_data("Hello World");
    gb.insert_at("x", 3);
    assert!(gb.gap_start + gb.gap_length <= gb.buffer.len());
    assert_eq!(gb.data_length(), gb.buffer.len() - gb.gap_length);
    gb.delete_at(2, 1);
    assert!(gb.gap_start + gb.gap_length <= gb.buffer.len());
    assert_eq!(gb.data_length(), gb.buffer.len() - gb.gap_length);
    gb.move_gap(4);
    assert!(gb.gap_start + gb.gap_length <= gb.buffer.len());
    assert_eq!(gb.data_length(), gb.buffer.len() - gb.gap_length);
}

#[test]
fn insert_then_delete_restores_text() {
    let mut gb = GapBuffer::with_data("Hello World");
    gb.insert_at("xyz", 5);
    assert_eq!(&gb.get_text_as_string(), "Helloxyz World");
    gb.delete_at(3, 5);
    assert_eq!(&gb.get_text_as_string(), "Hello World");
}

#[test]
fn move_gap_to_current_position_is_noop() {
    let mut gb = GapBuffer::with_data("Hello World");
    gb.move_gap(7);
    let buffer_before: Vec<char> = gb.buffer.clone();
    let (gs, gl) = (gb.gap_start, gb.gap_length);
    gb.move_gap(7);
    assert_eq!(gb.buffer, buffer_before);
    assert_eq!(gb.gap_start, gs);
    assert_eq!(gb.gap_length, gl);
}

#[test]
fn get_at_reads_logical_positions() {
    let mut gb = GapBuffer::with_data("Hello World");
    gb.move_gap(5);
    assert_eq!(gb.get_at(0), 'H');
    assert_eq!(gb.get_at(4), 'o');
    assert_eq!(gb.get_at(5), ' ');
    assert_eq!(gb.get_at(10), 'd');
}

#[test]
fn text_as_bytes_is_utf8() {
    let gb = GapBuffer::with_data("a\u{e9}b");
    assert_eq!(gb.get_text_as_bytes(), "a\u{e9}b".as_bytes().to_vec());
    let chars = gb.get_text_as_chars();
    assert_eq!(chars, vec!['a', '\u{e9}', 'b']);
}
