use miv::gap_buffer::GapBuffer;
use miv::motions::{apply_motion, Motion};

const ALL_MOTIONS: [Motion; 13] = [
    Motion::CharForward,
    Motion::CharBackward,
    Motion::NextWordStart,
    Motion::NextWordProperStart,
    Motion::NextWordEnd,
    Motion::NextWordProperEnd,
    Motion::LastWordStart,
    Motion::LastWordProperStart,
    Motion::LastWordEnd,
    Motion::LastWordProperEnd,
    Motion::NextLineStart,
    Motion::LineStart,
    Motion::LineEnd,
];

#[test]
fn word_motion_boundary_scenario() {
    let gb = GapBuffer::with_data("Hello World");
    assert_eq!(apply_motion(&gb, 0, &Motion::NextWordStart), 6);
    assert_eq!(apply_motion(&gb, 0, &Motion::NextWordEnd), 4);
    assert_eq!(apply_motion(&gb, 6, &Motion::LastWordStart), 0);
}

#[test]
fn empty_buffer_motions_are_noops() {
    let gb = GapBuffer::with_data("");
    for motion in ALL_MOTIONS.iter() {
        assert_eq!(apply_motion(&gb, 0, motion), 0);
    }
}

#[test]
fn char_motions_clamp_at_the_ends() {
    let gb = GapBuffer::with_data("ab");
    assert_eq!(apply_motion(&gb, 0, &Motion::CharForward), 1);
    assert_eq!(apply_motion(&gb, 1, &Motion::CharForward), 2);
    assert_eq!(apply_motion(&gb, 2, &Motion::CharForward), 2);
    assert_eq!(apply_motion(&gb, 2, &Motion::CharBackward), 1);
    assert_eq!(apply_motion(&gb, 0, &Motion::CharBackward), 0);
}

#[test]
fn word_start_crosses_class_boundaries() {
    // "foo(bar)" — word motions stop where the alphanumeric class flips.
    let gb = GapBuffer::with_data("foo(bar)");
    assert_eq!(apply_motion(&gb, 0, &Motion::NextWordStart), 3);
    assert_eq!(apply_motion(&gb, 3, &Motion::NextWordStart), 4);
    assert_eq!(apply_motion(&gb, 4, &Motion::NextWordStart), 7);
}

#[test]
fn proper_word_motions_ignore_punctuation_boundaries() {
    let gb = GapBuffer::with_data("foo(bar) baz");
    // WORD start: only whitespace runs matter, so "foo(bar)" is one WORD.
    assert_eq!(apply_motion(&gb, 0, &Motion::NextWordProperStart), 9);
    // WORD end: the last character before the whitespace.
    assert_eq!(apply_motion(&gb, 0, &Motion::NextWordProperEnd), 7);
}

#[test]
fn backward_word_motions_mirror_forward_ones() {
    let gb = GapBuffer::with_data("one two three");
    assert_eq!(apply_motion(&gb, 8, &Motion::LastWordStart), 4);
    assert_eq!(apply_motion(&gb, 8, &Motion::LastWordEnd), 6);
    assert_eq!(apply_motion(&gb, 4, &Motion::LastWordProperStart), 0);
    assert_eq!(apply_motion(&gb, 4, &Motion::LastWordProperEnd), 2);
}

#[test]
fn word_motions_land_on_last_index_when_nothing_is_found() {
    let gb = GapBuffer::with_data("abc");
    assert_eq!(apply_motion(&gb, 0, &Motion::NextWordStart), 2);
    assert_eq!(apply_motion(&gb, 2, &Motion::NextWordStart), 2);
    assert_eq!(apply_motion(&gb, 0, &Motion::NextWordProperEnd), 2);
}

#[test]
fn line_motions_use_newlines() {
    //                         0123 4567 89
    let gb = GapBuffer::with_data("abc\ndef\ngh");
    assert_eq!(apply_motion(&gb, 5, &Motion::LineStart), 4);
    assert_eq!(apply_motion(&gb, 5, &Motion::LineEnd), 7);
    assert_eq!(apply_motion(&gb, 5, &Motion::NextLineStart), 8);
    // First line: no preceding newline, so the line starts at 0.
    assert_eq!(apply_motion(&gb, 2, &Motion::LineStart), 0);
    // Last line: no following newline, so land on the last valid index.
    assert_eq!(apply_motion(&gb, 8, &Motion::LineEnd), 9);
    assert_eq!(apply_motion(&gb, 8, &Motion::NextLineStart), 9);
}

#[test]
fn line_start_sees_a_newline_at_index_zero() {
    let gb = GapBuffer::with_data("\nab");
    // The newline at index 0 is a preceding newline: land one past it.
    assert_eq!(apply_motion(&gb, 2, &Motion::LineStart), 1);
    assert_eq!(apply_motion(&gb, 1, &Motion::LineStart), 1);
    // With no newline below the cursor at all, land at 0.
    let gb = GapBuffer::with_data("ab\ncd");
    assert_eq!(apply_motion(&gb, 2, &Motion::LineStart), 0);
}
