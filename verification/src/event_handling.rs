//! The messages that drive the screens, and the keys that produce them.

use vstd::prelude::*;
use crate::model::{AppState, Screen, ScreenView};

verus! {

/// What the user asks of the application. A message that means nothing on
/// the screen that receives it changes nothing there.
#[derive(Debug, Clone, Copy, PartialEq, Eq, Structural)]
pub enum Message {
    Increment,
    Decrement,
    Reset,
    Quit,
    Select,
    ShiftLeft,
    ShiftRight,
    ShiftDown,
    ShiftUp,
    ZoomIn,
    ZoomOut,
}

/// The key of a key event, as far as the application tells keys apart.
#[derive(Debug, Clone, Copy, PartialEq, Eq, Structural)]
pub enum KeyCode {
    Char(char),
    Enter,
    Other,
}

/// Whether a key went down, is held, or came up.
#[derive(Debug, Clone, Copy, PartialEq, Eq, Structural)]
pub enum KeyEventKind {
    Press,
    Repeat,
    Release,
}

/// One event of the keyboard.
#[derive(Debug, Clone, Copy, PartialEq, Eq, Structural)]
pub struct KeyEvent {
    pub code: KeyCode,
    pub kind: KeyEventKind,
}

/// One event of the terminal.
#[derive(Debug, Clone, Copy, PartialEq, Eq, Structural)]
pub enum Event {
    Key(KeyEvent),
    Other,
}

/// The message that the pan and zoom keys stand for: `w`, `a`, `s`, `d` shift
/// the map, `i` and `o` zoom, `q` quits.
pub open spec fn map_key_message(code: KeyCode) -> Option<Message> {
    match code {
        KeyCode::Char(c) => if c == 'w' {
            Some(Message::ShiftUp)
        } else if c == 'a' {
            Some(Message::ShiftLeft)
        } else if c == 's' {
            Some(Message::ShiftDown)
        } else if c == 'd' {
            Some(Message::ShiftRight)
        } else if c == 'i' {
            Some(Message::ZoomIn)
        } else if c == 'o' {
            Some(Message::ZoomOut)
        } else if c == 'q' {
            Some(Message::Quit)
        } else {
            None
        },
        _ => None,
    }
}

/// The message that pressing the key `code` stands for on `screen`, if any.
///
/// On the browsing screen `w` and `s` move the position, the enter key selects
/// and `q` quits. On the summary the pan and zoom keys work and the enter key
/// selects; on the detail view the pan and zoom keys work.
pub open spec fn key_message(screen: ScreenView, code: KeyCode) -> Option<Message> {
    match screen {
        ScreenView::Main(_) => match code {
            KeyCode::Char(c) => if c == 'w' {
                Some(Message::Increment)
            } else if c == 's' {
                Some(Message::Decrement)
            } else if c == 'q' {
                Some(Message::Quit)
            } else {
                None
            },
            KeyCode::Enter => Some(Message::Select),
            KeyCode::Other => None,
        },
        ScreenView::Summary(_) => match code {
            KeyCode::Enter => Some(Message::Select),
            _ => map_key_message(code),
        },
        ScreenView::Inspect(_) => map_key_message(code),
    }
}

/// The message that `event` stands for on `screen`: that of its key if a key
/// was pressed, none for any other event.
pub open spec fn event_message(screen: ScreenView, event: Event) -> Option<Message> {
    match event {
        Event::Key(key) => if key.kind is Press {
            key_message(screen, key.code)
        } else {
            None
        },
        Event::Other => None,
    }
}

/// Every message that a key produces asks something of the screen that the
/// key was pressed on.
pub proof fn lemma_key_message_is_answered(screen: ScreenView, code: KeyCode)
    ensures
        key_message(screen, code) matches Some(msg) ==> screen.answers(msg),
{
}

fn handle_map_key(code: KeyCode) -> (msg: Option<Message>)
    ensures
        msg == map_key_message(code),
{
    match code {
        KeyCode::Char(c) => {
            if c == 'w' {
                Some(Message::ShiftUp)
            } else if c == 'a' {
                Some(Message::ShiftLeft)
            } else if c == 's' {
                Some(Message::ShiftDown)
            } else if c == 'd' {
                Some(Message::ShiftRight)
            } else if c == 'i' {
                Some(Message::ZoomIn)
            } else if c == 'o' {
                Some(Message::ZoomOut)
            } else if c == 'q' {
                Some(Message::Quit)
            } else {
                None
            }
        },
        _ => None,
    }
}

/// Tells which message pressing the key `key` stands for on `active_screen`.
pub fn handle_key(active_screen: &Screen, key: KeyEvent) -> (msg: Option<Message>)
    ensures
        msg == key_message(active_screen@, key.code),
{
    match active_screen {
        Screen::Main(_) => match key.code {
            KeyCode::Char(c) => {
                if c == 'w' {
                    Some(Message::Increment)
                } else if c == 's' {
                    Some(Message::Decrement)
                } else if c == 'q' {
                    Some(Message::Quit)
                } else {
                    None
                }
            },
            KeyCode::Enter => Some(Message::Select),
            KeyCode::Other => None,
        },
        Screen::Summary(_) => match key.code {
            KeyCode::Enter => Some(Message::Select),
            _ => handle_map_key(key.code),
        },
        Screen::Inspect(_) => handle_map_key(key.code),
    }
}

/// Tells which message `event` stands for in `state`. Only a key that goes
/// down counts; a key that is held or comes up, and any other event, stands
/// for nothing.
pub fn handle_event(state: &AppState, event: &Event) -> (msg: Option<Message>)
    ensures
        msg == event_message(state@.active_screen, *event),
{
    match event {
        Event::Key(key) => match key.kind {
            KeyEventKind::Press => handle_key(&state.active_screen, *key),
            _ => None,
        },
        Event::Other => None,
    }
}

} // verus!
