//! Keyboard events as plain values, and what each asks of the input loop.
//!
//! The terminal hands out events of `crossterm`. What the loop looks at in
//! one is an [`InputEvent`]: [`event_read`] names it.

use crossterm::event::{Event, KeyCode, KeyEventKind};
use vstd::prelude::*;

verus! {

/// `crossterm::event::Event`: one event read from the terminal. A value of
/// it is carried through as it is; nothing is known of what it holds.
#[verifier::external_type_specification]
#[verifier::external_body]
pub struct ExEvent(crossterm::event::Event);

/// The modifier bits of a key event that holds Control and nothing else.
pub const CONTROL: u8 = 2;

/// The key of a key event, as far as the loop tells keys apart.
#[derive(Clone, Copy, Debug, PartialEq, Eq)]
pub enum Key {
    /// Enter.
    Enter,
    /// Escape.
    Esc,
    /// Arrow up.
    Up,
    /// Arrow down.
    Down,
    /// A character key.
    Char(char),
    /// Any other key.
    Other,
}

/// Whether a key went down, is held, or came up.
#[derive(Clone, Copy, Debug, PartialEq, Eq)]
pub enum KeyKind {
    /// The key went down.
    Press,
    /// The key is held down.
    Repeat,
    /// The key came up.
    Release,
}

/// One key event.
#[derive(Clone, Copy, Debug, PartialEq, Eq)]
pub struct KeyEvent {
    /// The key.
    pub code: Key,
    /// Press, repeat or release.
    pub kind: KeyKind,
    /// The modifier keys held, one bit each.
    pub modifiers: u8,
}

/// One event read from the terminal.
#[derive(Clone, Copy, Debug, PartialEq, Eq)]
pub enum InputEvent {
    /// A key event.
    Key(KeyEvent),
    /// Anything else: the mouse, a resize, a paste, the focus.
    Other,
}

/// What an event asks of the input loop.
#[derive(Clone, Copy, Debug, PartialEq, Eq)]
pub enum Command {
    /// Nothing: not a key, or not a key going down.
    Ignore,
    /// End the whole program: Control and `c`.
    Interrupt,
    /// Give up the expression in the making: Escape.
    Abort,
    /// Show the history entry before the one shown: arrow up.
    Previous,
    /// Show the history entry after the one shown: arrow down.
    Next,
    /// Submit the line: Enter.
    Submit,
    /// Any other key going down: an edit of the line, if it is one.
    Edit,
}

impl KeyEvent {
    /// The interrupt chord: `c` with Control and no other modifier.
    pub open spec fn is_interrupt(self) -> bool {
        self.code == Key::Char('c') && self.modifiers == CONTROL
    }
}

impl InputEvent {
    /// What the event asks for. Only keys going down count; the interrupt
    /// chord comes before every other reading of a key.
    pub open spec fn command(self) -> Command {
        match self {
            InputEvent::Other => Command::Ignore,
            InputEvent::Key(key) => if !(key.kind is Press) {
                Command::Ignore
            } else if key.is_interrupt() {
                Command::Interrupt
            } else {
                match key.code {
                    Key::Esc => Command::Abort,
                    Key::Up => Command::Previous,
                    Key::Down => Command::Next,
                    Key::Enter => Command::Submit,
                    _ => Command::Edit,
                }
            },
        }
    }
}

/// What an event of `crossterm` holds, as far as the loop looks at it: the
/// result of [`input_event`].
pub uninterp spec fn event_read(event: Event) -> InputEvent;

/// Reads an event of `crossterm` into an [`InputEvent`]: a key event gives
/// its key, its kind and the bits of its modifiers, every other event gives
/// [`InputEvent::Other`].
///
/// Trusted. The event is opaque, so the contract gives the result a name,
/// and so claims that it depends on the event alone.
#[verifier::external_body]
pub(crate) fn input_event(event: &Event) -> (read: InputEvent)
    ensures
        read == event_read(*event),
{
    let Event::Key(key) = event else { return InputEvent::Other };
    let code = match key.code {
        KeyCode::Enter => Key::Enter,
        KeyCode::Esc => Key::Esc,
        KeyCode::Up => Key::Up,
        KeyCode::Down => Key::Down,
        KeyCode::Char(c) => Key::Char(c),
        _ => Key::Other,
    };
    let kind = match key.kind {
        KeyEventKind::Press => KeyKind::Press,
        KeyEventKind::Repeat => KeyKind::Repeat,
        KeyEventKind::Release => KeyKind::Release,
    };
    InputEvent::Key(KeyEvent { code, kind, modifiers: key.modifiers.bits() })
}

/// What `event` asks of the input loop: see [`InputEvent::command`].
pub fn command_for(event: &InputEvent) -> (command: Command)
    ensures
        command == event.command(),
{
    match event {
        InputEvent::Other => Command::Ignore,
        InputEvent::Key(key) => {
            match key.kind {
                KeyKind::Press => {},
                _ => {
                    return Command::Ignore;
                },
            }
            match key.code {
                Key::Char(c) => if c == 'c' && key.modifiers == CONTROL {
                    Command::Interrupt
                } else {
                    Command::Edit
                },
                Key::Esc => Command::Abort,
                Key::Up => Command::Previous,
                Key::Down => Command::Next,
                Key::Enter => Command::Submit,
                Key::Other => Command::Edit,
            }
        },
    }
}

} // verus!
