use wilo::editor::{parse_args, CliAction, Editor, Input, Key};

fn chars(s: &str) -> Vec<char> {
    s.chars().collect()
}

fn line_string(e: &Editor, i: usize) -> String {
    e.buffer.line_chars(i).into_iter().collect()
}

fn key(e: &mut Editor, k: Key) {
    e.handle_input(Input::Key(k));
}

#[test]
fn typing_then_break_then_typing() {
    let mut e = Editor::new(80, 24);
    key(&mut e, Key::Char { c: 'a', ctrl: false });
    key(&mut e, Key::Char { c: 'b', ctrl: false });
    key(&mut e, Key::Enter);
    key(&mut e, Key::Char { c: 'c', ctrl: false });
    assert_eq!(e.buffer.line_count(), 2);
    assert_eq!(line_string(&e, 0), "ab");
    assert_eq!(line_string(&e, 1), "c");
    assert_eq!((e.buffer.cx(), e.buffer.cy()), (1, 1));
    assert!(!e.should_quit);
}

#[test]
fn tab_inserts_four_spaces() {
    let mut e = Editor::new(80, 24);
    key(&mut e, Key::Tab);
    assert_eq!(line_string(&e, 0), "    ");
    assert_eq!(e.buffer.cx(), 4);
}

#[test]
fn control_q_requests_quit_without_editing() {
    let mut e = Editor::new(80, 24);
    key(&mut e, Key::Char { c: 'x', ctrl: false });
    key(&mut e, Key::Char { c: 'Q', ctrl: true });
    assert!(e.should_quit);
    assert_eq!(line_string(&e, 0), "x");
}

#[test]
fn control_with_other_char_inserts_it() {
    let mut e = Editor::new(80, 24);
    key(&mut e, Key::Char { c: 'A', ctrl: true });
    assert!(!e.should_quit);
    assert_eq!(line_string(&e, 0), "A");
}

#[test]
fn arrows_move_one_step() {
    let mut e = Editor::new(80, 24);
    e.open(vec![chars("abc"), chars("def")]);
    key(&mut e, Key::Right);
    assert_eq!((e.buffer.cx(), e.buffer.cy()), (1, 0));
    key(&mut e, Key::Down);
    assert_eq!((e.buffer.cx(), e.buffer.cy()), (1, 1));
    key(&mut e, Key::Left);
    assert_eq!((e.buffer.cx(), e.buffer.cy()), (0, 1));
    key(&mut e, Key::Up);
    assert_eq!((e.buffer.cx(), e.buffer.cy()), (0, 0));
}

#[test]
fn backspace_and_delete_keys_edit_at_cursor() {
    let mut e = Editor::new(80, 24);
    e.open(vec![chars("abc")]);
    key(&mut e, Key::Right);
    key(&mut e, Key::Backspace);
    assert_eq!(line_string(&e, 0), "bc");
    key(&mut e, Key::Delete);
    assert_eq!(line_string(&e, 0), "c");
}

#[test]
fn no_input_changes_nothing() {
    let mut e = Editor::new(80, 24);
    e.open(vec![chars("abc")]);
    e.handle_input(Input::NoInput);
    assert!(!e.should_quit);
    assert_eq!(line_string(&e, 0), "abc");
    assert_eq!((e.buffer.cx(), e.buffer.cy()), (0, 0));
}

#[test]
fn read_error_requests_quit() {
    let mut e = Editor::new(80, 24);
    e.handle_input(Input::ReadError);
    assert!(e.should_quit);
}

#[test]
fn open_replaces_document_and_resets_cursor() {
    let mut e = Editor::new(80, 24);
    key(&mut e, Key::Char { c: 'z', ctrl: false });
    e.open(vec![chars("one"), chars("two")]);
    assert_eq!(e.buffer.line_count(), 2);
    assert_eq!(line_string(&e, 0), "one");
    assert_eq!(line_string(&e, 1), "two");
    assert_eq!((e.buffer.cx(), e.buffer.cy()), (0, 0));
}

#[test]
fn zero_arguments_start_empty() {
    assert!(matches!(parse_args(0), CliAction::StartEmpty));
}

#[test]
fn one_argument_opens_a_path() {
    assert!(matches!(parse_args(1), CliAction::OpenPath));
}

#[test]
fn two_arguments_are_a_usage_error() {
    assert!(matches!(parse_args(2), CliAction::UsageError));
    assert!(matches!(parse_args(7), CliAction::UsageError));
}
