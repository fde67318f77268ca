use crossterm::event::{Event, KeyCode, KeyEvent, KeyModifiers};
use dj_runner::line_buffer::{EditRequest, LineBuffer, StateChanged};
use tui_input::{Input, InputRequest};

const BOTH: Option<StateChanged> = Some(StateChanged { value: true, cursor: true });
const VALUE: Option<StateChanged> = Some(StateChanged { value: true, cursor: false });
const CURSOR: Option<StateChanged> = Some(StateChanged { value: false, cursor: true });

fn line_of(text: &str, cursor: usize) -> LineBuffer {
    let mut line = LineBuffer::new(0);
    line.load(text.to_string());
    line.move_home();
    for _ in 0..cursor {
        line.move_right();
    }
    line
}

#[test]
fn new_line_is_empty() {
    let line = LineBuffer::new(2);
    assert_eq!(line.value(), "");
    assert_eq!(line.cursor(), 0);
    assert_eq!(line.left_bound(), 2);
}

#[test]
fn insert_appends_at_the_end() {
    let mut line = LineBuffer::new(0);
    assert_eq!(line.insert('a'), BOTH);
    assert_eq!(line.insert('b'), BOTH);
    assert_eq!(line.value(), "ab");
    assert_eq!(line.cursor(), 2);
}

#[test]
fn insert_in_the_middle_shifts_the_tail() {
    let mut line = line_of("held", 3);
    assert_eq!(line.insert('l'), BOTH);
    assert_eq!(line.value(), "helld");
    assert_eq!(line.cursor(), 4);
    let mut line = line_of("ello", 0);
    line.insert('h');
    assert_eq!(line.value(), "hello");
    assert_eq!(line.cursor(), 1);
}

#[test]
fn delete_backward_removes_the_character_before_the_cursor() {
    let mut line = line_of("hello", 3);
    assert_eq!(line.delete_backward(), BOTH);
    assert_eq!(line.value(), "helo");
    assert_eq!(line.cursor(), 2);
}

#[test]
fn delete_backward_at_the_start_does_nothing() {
    let mut line = line_of("hello", 0);
    assert_eq!(line.delete_backward(), None);
    assert_eq!(line.value(), "hello");
    assert_eq!(line.cursor(), 0);
    let mut empty = LineBuffer::new(4);
    assert_eq!(empty.delete_backward(), None);
    assert_eq!(empty.value(), "");
    assert_eq!(empty.cursor(), 0);
}

#[test]
fn delete_forward_removes_the_character_at_the_cursor() {
    let mut line = line_of("hello", 1);
    assert_eq!(line.delete_forward(), VALUE);
    assert_eq!(line.value(), "hllo");
    assert_eq!(line.cursor(), 1);
}

#[test]
fn delete_forward_behind_the_end_does_nothing() {
    let mut line = line_of("hello", 5);
    assert_eq!(line.delete_forward(), None);
    assert_eq!(line.value(), "hello");
    assert_eq!(line.cursor(), 5);
}

#[test]
fn move_left_and_right_stop_at_the_ends() {
    let mut line = line_of("ab", 1);
    assert_eq!(line.move_left(), CURSOR);
    assert_eq!(line.cursor(), 0);
    assert_eq!(line.move_left(), None);
    assert_eq!(line.cursor(), 0);
    assert_eq!(line.move_right(), CURSOR);
    assert_eq!(line.move_right(), CURSOR);
    assert_eq!(line.cursor(), 2);
    assert_eq!(line.move_right(), None);
    assert_eq!(line.cursor(), 2);
    assert_eq!(line.value(), "ab");
}

#[test]
fn move_home_and_end_jump() {
    let mut line = line_of("hello", 2);
    assert_eq!(line.move_home(), CURSOR);
    assert_eq!(line.cursor(), 0);
    assert_eq!(line.move_home(), None);
    assert_eq!(line.move_end(), CURSOR);
    assert_eq!(line.cursor(), 5);
    assert_eq!(line.move_end(), None);
    assert_eq!(line.value(), "hello");
}

#[test]
fn reset_empties_the_line_at_a_new_column() {
    let mut line = line_of("hello", 2);
    line.reset(7);
    assert_eq!(line.value(), "");
    assert_eq!(line.cursor(), 0);
    assert_eq!(line.left_bound(), 7);
}

#[test]
fn load_replaces_the_text_and_puts_the_cursor_behind_it() {
    let mut line = line_of("hello", 2);
    line.set_left_bound(3);
    line.load("abc".to_string());
    assert_eq!(line.value(), "abc");
    assert_eq!(line.cursor(), 3);
    assert_eq!(line.left_bound(), 3);
    line.load("h\u{e9}llo w\u{f6}rld".to_string());
    assert_eq!(line.cursor(), 11);
}

#[test]
fn set_left_bound_keeps_text_and_cursor() {
    let mut line = line_of("hello", 2);
    line.set_left_bound(9);
    assert_eq!(line.value(), "hello");
    assert_eq!(line.cursor(), 2);
    assert_eq!(line.left_bound(), 9);
}

#[test]
fn the_cursor_counts_characters_not_bytes() {
    let mut line = LineBuffer::new(0);
    line.insert('\u{e9}');
    line.insert('\u{4e2d}');
    line.insert('x');
    assert_eq!(line.value(), "\u{e9}\u{4e2d}x");
    assert_eq!(line.cursor(), 3);
    line.move_left();
    assert_eq!(line.delete_backward(), BOTH);
    assert_eq!(line.value(), "\u{e9}x");
    assert_eq!(line.cursor(), 1);
    assert_eq!(line.before_cursor(), "\u{e9}");
    assert_eq!(line.after_cursor(), "x");
}

#[test]
fn before_and_after_cursor_split_the_text() {
    let line = line_of("foobar", 3);
    assert_eq!(line.before_cursor(), "foo");
    assert_eq!(line.after_cursor(), "bar");
    let line = line_of("foobar", 0);
    assert_eq!(line.before_cursor(), "");
    assert_eq!(line.after_cursor(), "foobar");
    let line = line_of("foobar", 6);
    assert_eq!(line.before_cursor(), "foobar");
    assert_eq!(line.after_cursor(), "");
}

#[test]
fn keep_after_cursor_leaves_the_rest_with_the_cursor_at_its_start() {
    let mut line = line_of("foobar", 3);
    line.set_left_bound(2);
    line.keep_after_cursor();
    assert_eq!(line.value(), "bar");
    assert_eq!(line.cursor(), 0);
    assert_eq!(line.left_bound(), 2);
}

#[test]
fn apply_makes_the_requested_edit() {
    let mut line = LineBuffer::new(0);
    assert_eq!(line.apply(EditRequest::Insert('a')), BOTH);
    assert_eq!(line.apply(EditRequest::Insert('c')), BOTH);
    assert_eq!(line.apply(EditRequest::MoveLeft), CURSOR);
    assert_eq!(line.apply(EditRequest::Insert('b')), BOTH);
    assert_eq!(line.value(), "abc");
    assert_eq!(line.cursor(), 2);
    assert_eq!(line.apply(EditRequest::MoveHome), CURSOR);
    assert_eq!(line.apply(EditRequest::DeleteForward), VALUE);
    assert_eq!(line.value(), "bc");
    assert_eq!(line.apply(EditRequest::MoveEnd), CURSOR);
    assert_eq!(line.apply(EditRequest::DeleteBackward), BOTH);
    assert_eq!(line.value(), "b");
    assert_eq!(line.cursor(), 1);
    assert_eq!(line.apply(EditRequest::MoveRight), None);
}

#[test]
fn the_cursor_stays_within_the_text_whatever_is_requested() {
    let requests = [
        EditRequest::DeleteBackward,
        EditRequest::MoveLeft,
        EditRequest::MoveRight,
        EditRequest::Insert('a'),
        EditRequest::MoveRight,
        EditRequest::MoveRight,
        EditRequest::Insert('b'),
        EditRequest::MoveHome,
        EditRequest::MoveLeft,
        EditRequest::DeleteBackward,
        EditRequest::DeleteForward,
        EditRequest::DeleteForward,
        EditRequest::DeleteForward,
        EditRequest::MoveEnd,
        EditRequest::Insert('c'),
        EditRequest::MoveLeft,
        EditRequest::MoveLeft,
        EditRequest::MoveLeft,
        EditRequest::DeleteBackward,
        EditRequest::Insert('\u{e9}'),
        EditRequest::MoveEnd,
        EditRequest::MoveRight,
    ];
    let mut line = LineBuffer::new(2);
    for start in 0..requests.len() {
        for request in requests[start..].iter().chain(requests[..start].iter()) {
            line.apply(*request);
            assert!(line.cursor() <= line.value().chars().count());
            assert_eq!(line.left_bound(), 2);
        }
    }
}

#[test]
fn insert_then_delete_backward_gives_the_line_back() {
    for text in ["", "a", "hello", "h\u{e9}llo"] {
        let len = text.chars().count();
        for cursor in 0..=len {
            let mut line = line_of(text, cursor);
            line.insert('x');
            line.delete_backward();
            assert_eq!(line.value(), text);
            assert_eq!(line.cursor(), cursor);
        }
    }
}

#[test]
fn edits_agree_with_the_input_of_tui_input() {
    let pairs = [
        (EditRequest::Insert('a'), InputRequest::InsertChar('a')),
        (EditRequest::Insert('b'), InputRequest::InsertChar('b')),
        (EditRequest::MoveLeft, InputRequest::GoToPrevChar),
        (EditRequest::Insert('\u{4e2d}'), InputRequest::InsertChar('\u{4e2d}')),
        (EditRequest::MoveHome, InputRequest::GoToStart),
        (EditRequest::DeleteBackward, InputRequest::DeletePrevChar),
        (EditRequest::DeleteForward, InputRequest::DeleteNextChar),
        (EditRequest::MoveRight, InputRequest::GoToNextChar),
        (EditRequest::MoveRight, InputRequest::GoToNextChar),
        (EditRequest::MoveRight, InputRequest::GoToNextChar),
        (EditRequest::DeleteForward, InputRequest::DeleteNextChar),
        (EditRequest::DeleteBackward, InputRequest::DeletePrevChar),
        (EditRequest::MoveEnd, InputRequest::GoToEnd),
        (EditRequest::MoveEnd, InputRequest::GoToEnd),
        (EditRequest::Insert(' '), InputRequest::InsertChar(' ')),
        (EditRequest::MoveLeft, InputRequest::GoToPrevChar),
        (EditRequest::MoveLeft, InputRequest::GoToPrevChar),
        (EditRequest::MoveLeft, InputRequest::GoToPrevChar),
        (EditRequest::MoveHome, InputRequest::GoToStart),
    ];
    let mut line = LineBuffer::new(0);
    let mut input = Input::default();
    for (ours, theirs) in pairs {
        let changed = line.apply(ours);
        let expected = input.handle(theirs);
        assert_eq!(
            changed.map(|c| (c.value, c.cursor)),
            expected.map(|c| (c.value, c.cursor))
        );
        assert_eq!(line.value(), input.value());
        assert_eq!(line.cursor(), input.cursor());
    }
}

#[test]
fn handle_input_event_makes_the_edit_that_the_key_stands_for() {
    let mut line = line_of("one two", 7);
    line.set_left_bound(2);
    let control_w = Event::Key(KeyEvent::new(KeyCode::Char('w'), KeyModifiers::CONTROL));
    assert_eq!(line.handle_input_event(&control_w), BOTH);
    assert_eq!(line.value(), "one ");
    assert_eq!(line.cursor(), 4);
    assert_eq!(line.left_bound(), 2);
    let tab = Event::Key(KeyEvent::new(KeyCode::Tab, KeyModifiers::NONE));
    assert_eq!(line.handle_input_event(&tab), None);
    assert_eq!(line.handle_input_event(&Event::FocusLost), None);
    assert_eq!(line.value(), "one ");
    assert_eq!(line.cursor(), 4);
    let letter = Event::Key(KeyEvent::new(KeyCode::Char('x'), KeyModifiers::NONE));
    assert_eq!(line.handle_input_event(&letter), BOTH);
    assert_eq!(line.value(), "one x");
    assert_eq!(line.cursor(), 5);
}
