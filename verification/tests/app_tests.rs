use miv::app::{App, InputMode};
use miv::command_line::CommandLine;
use miv::commands::Command;
use miv::editor::EditorBuffer;
use miv::highlighting::{events_to_spans, HighlightGroup, HighlightSpan, HighlightStep};
use miv::motions::Motion;

fn fresh_app(text: &str, path: Option<String>) -> App {
    App::new(EditorBuffer::new(text, path))
}

#[test]
fn quit_stops_the_app() {
    let mut app = fresh_app("", None);
    assert!(app.running);
    let saves = app.execute(vec![Command::Quit]);
    assert!(!app.running);
    assert!(saves.is_empty());
}

#[test]
fn change_input_mode_switches_modes() {
    let mut app = fresh_app("", None);
    assert_eq!(app.mode, InputMode::Normal);
    app.execute(vec![Command::ChangeInputMode(InputMode::Insert)]);
    assert_eq!(app.mode, InputMode::Insert);
}

#[test]
fn editor_commands_reach_the_buffer() {
    let mut app = fresh_app("Hello World", None);
    app.execute(vec![
        Command::ChangeInputMode(InputMode::Insert),
        Command::EditorInsert(">".to_string()),
        Command::EditorMove(Motion::NextWordStart),
        Command::EditorDelete(Motion::NextWordProperEnd),
    ]);
    assert_eq!(app.editor.gap_buffer.get_text_as_string(), ">Hello d");
    assert_eq!(app.editor.cursor_index, 7);
}

#[test]
fn command_line_commands_edit_the_line() {
    let mut app = fresh_app("", None);
    app.execute(vec![
        Command::CommandLineInsertChar('w'),
        Command::CommandLineInsertChar('q'),
        Command::CommandLineLeft,
        Command::CommandLineDelete,
    ]);
    assert_eq!(app.command_line.value, vec!['q']);
    assert_eq!(app.command_line.cursor_position, 0);
    app.execute(vec![Command::CommandLineStop]);
    assert!(app.command_line.value.is_empty());
}

#[test]
fn finished_wq_line_saves_and_quits() {
    let mut app = fresh_app("hi", Some("a.txt".to_string()));
    app.execute(vec![
        Command::CommandLineInsertChar('w'),
        Command::CommandLineInsertChar('q'),
    ]);
    let saves = app.execute(vec![Command::CommandLineEnter, Command::CommandLineStop]);
    assert!(!app.running);
    assert_eq!(saves.len(), 1);
    assert_eq!(saves[0].path, Some("a.txt".to_string()));
    assert_eq!(saves[0].text, "hi");
    assert!(app.command_line.value.is_empty());
}

#[test]
fn unknown_command_lines_do_nothing() {
    let mut app = fresh_app("hi", None);
    app.execute(vec![Command::CommandLineInsertChar('z')]);
    let saves = app.execute(vec![Command::CommandLineEnter]);
    assert!(app.running);
    assert!(saves.is_empty());
}

#[test]
fn save_without_path_still_raises_a_request() {
    let mut app = fresh_app("text", None);
    let saves = app.execute(vec![Command::EditorSave]);
    assert_eq!(saves.len(), 1);
    assert_eq!(saves[0].path, None);
    assert_eq!(saves[0].text, "text");
}

#[test]
fn get_commands_maps_known_lines() {
    let mut cl = CommandLine::new();
    cl.enter_char('q');
    assert_eq!(cl.get_commands(), vec![Command::Quit]);

    let mut cl = CommandLine::new();
    cl.enter_char('w');
    assert_eq!(cl.get_commands(), vec![Command::EditorSave]);
    cl.enter_char('q');
    assert_eq!(cl.get_commands(), vec![Command::EditorSave, Command::Quit]);

    let mut cl = CommandLine::new();
    cl.enter_char('x');
    assert_eq!(cl.get_commands(), Vec::<Command>::new());
}

#[test]
fn command_line_cursor_is_clamped() {
    let mut cl = CommandLine::new();
    cl.move_cursor_left();
    assert_eq!(cl.cursor_position, 0);
    cl.move_cursor_right();
    assert_eq!(cl.cursor_position, 0);
    cl.enter_char('a');
    cl.enter_char('b');
    assert_eq!(cl.cursor_position, 2);
    cl.move_cursor_right();
    assert_eq!(cl.cursor_position, 2);
    assert_eq!(cl.clamp_cursor(17), 2);
}

#[test]
fn spans_follow_the_event_stream() {
    let events = vec![
        HighlightStep::Source { start: 0, end: 2 },
        HighlightStep::Start { index: 10 },
        HighlightStep::Source { start: 2, end: 5 },
        HighlightStep::End,
        HighlightStep::Source { start: 5, end: 7 },
        HighlightStep::Start { index: 99 },
        HighlightStep::Source { start: 7, end: 8 },
    ];
    let spans = events_to_spans(&events);
    assert_eq!(
        spans,
        vec![
            HighlightSpan { group: HighlightGroup::Unstyled, start: 0, end: 2 },
            HighlightSpan { group: HighlightGroup::Keyword, start: 2, end: 5 },
            HighlightSpan { group: HighlightGroup::Unstyled, start: 5, end: 7 },
            HighlightSpan { group: HighlightGroup::Unstyled, start: 7, end: 8 },
        ]
    );
}
