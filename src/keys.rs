use vstd::prelude::*;

use crate::session::{Event, For, Line, To, Towards};

verus! {

/// A key as the terminal reports it.
#[derive(Clone, Copy, Debug, PartialEq, Eq, Structural)]
pub enum KeyCode {
    Char(char),
    Esc,
    Enter,
    Left,
    Right,
    Up,
    Down,
    Home,
    End,
    Backspace,
    Delete,
    PageUp,
    PageDown,
    /// Any key the search does not use.
    Other,
}

/// A key press with the modifiers held.
#[derive(Clone, Copy, Debug, PartialEq, Eq, Structural)]
pub struct KeyInput {
    pub code: KeyCode,
    pub ctrl: bool,
    pub alt: bool,
}

/// What a mouse did.
#[derive(Clone, Copy, Debug, PartialEq, Eq, Structural)]
pub enum MouseKind {
    ScrollDown,
    ScrollUp,
    /// Clicks, drags and moves, which the search ignores.
    Other,
}

/// A raw terminal input.
#[derive(Clone, Copy, Debug, PartialEq, Eq, Structural)]
pub enum RawEvent {
    Key(KeyInput),
    Mouse(MouseKind),
    FocusGained,
    FocusLost,
    Paste,
    Resize,
}

/// A raw input that maps to no event.
#[derive(Clone, Copy, Debug, PartialEq, Eq, Structural)]
pub struct Skip;

/// The event a key press stands for, if any.
pub open spec fn key_event(k: KeyInput) -> Option<Event> {
    let ctrl = k.ctrl;
    match k.code {
        KeyCode::Char(c) => if ctrl && (c == 'c' || c == 'd' || c == 'g') {
            Some(Event::Cancel)
        } else if k.alt && '1' <= c <= '9' {
            Some(Event::SelectN((c as u32 - '0' as u32) as u32))
        } else if ctrl && c == 'h' {
            Some(Event::Cursor(Towards::Left, To::Char))
        } else if ctrl && c == 'l' {
            Some(Event::Cursor(Towards::Right, To::Char))
        } else if ctrl && c == 'a' {
            Some(Event::Cursor(Towards::Left, To::Edge))
        } else if ctrl && c == 'e' {
            Some(Event::Cursor(Towards::Right, To::Edge))
        } else if ctrl && c == 'w' {
            Some(Event::Delete(Towards::Left, To::Word))
        } else if ctrl && c == 'u' {
            Some(Event::Clear)
        } else if ctrl && c == 'r' {
            Some(Event::CycleFilterMode)
        } else if ctrl && (c == 'n' || c == 'j') {
            Some(Event::Selection(Line::Down, For::SingleLine))
        } else if ctrl && (c == 'p' || c == 'k') {
            Some(Event::Selection(Line::Up, For::SingleLine))
        } else {
            Some(Event::Input(c))
        },
        KeyCode::Esc => Some(Event::Exit),
        KeyCode::Enter => Some(Event::SelectN(0)),
        KeyCode::Left => Some(Event::Cursor(Towards::Left, if ctrl { To::Word } else { To::Char })),
        KeyCode::Right => Some(Event::Cursor(Towards::Right, if ctrl { To::Word } else { To::Char })),
        KeyCode::Home => Some(Event::Cursor(Towards::Left, To::Edge)),
        KeyCode::End => Some(Event::Cursor(Towards::Right, To::Edge)),
        KeyCode::Backspace => Some(Event::Delete(Towards::Left, if ctrl { To::Word } else { To::Char })),
        KeyCode::Delete => Some(Event::Delete(Towards::Right, if ctrl { To::Word } else { To::Char })),
        KeyCode::Down => Some(Event::Selection(Line::Down, For::SingleLine)),
        KeyCode::Up => Some(Event::Selection(Line::Up, For::SingleLine)),
        KeyCode::PageDown => Some(Event::Selection(Line::Down, For::Page)),
        KeyCode::PageUp => Some(Event::Selection(Line::Up, For::Page)),
        KeyCode::Other => None,
    }
}

/// The event a mouse action stands for, if any.
pub open spec fn mouse_event(m: MouseKind) -> Option<Event> {
    match m {
        MouseKind::ScrollDown => Some(Event::Selection(Line::Down, For::SingleLine)),
        MouseKind::ScrollUp => Some(Event::Selection(Line::Up, For::SingleLine)),
        MouseKind::Other => None,
    }
}

/// The event a raw input stands for, if any.
pub open spec fn raw_event(r: RawEvent) -> Option<Event> {
    match r {
        RawEvent::Key(k) => key_event(k),
        RawEvent::Mouse(m) => mouse_event(m),
        _ => None,
    }
}

/// `Ok(e)` where `o` is `Some(e)`, `Err(Skip)` where it is `None`.
pub open spec fn as_result(o: Option<Event>) -> Result<Event, Skip> {
    match o {
        Some(e) => Ok(e),
        None => Err(Skip),
    }
}

impl Event {
    /// Maps a key press through the fixed key table.
    pub fn from_key(k: KeyInput) -> (r: Result<Event, Skip>)
        ensures
            r == as_result(key_event(k)),
    {
        let ctrl = k.ctrl;
        match k.code {
            KeyCode::Char(c) => {
                if ctrl && (c == 'c' || c == 'd' || c == 'g') {
                    Ok(Event::Cancel)
                } else if k.alt && '1' <= c && c <= '9' {
                    Ok(Event::SelectN(c as u32 - '0' as u32))
                } else if ctrl && c == 'h' {
                    Ok(Event::Cursor(Towards::Left, To::Char))
                } else if ctrl && c == 'l' {
                    Ok(Event::Cursor(Towards::Right, To::Char))
                } else if ctrl && c == 'a' {
                    Ok(Event::Cursor(Towards::Left, To::Edge))
                } else if ctrl && c == 'e' {
                    Ok(Event::Cursor(Towards::Right, To::Edge))
                } else if ctrl && c == 'w' {
                    Ok(Event::Delete(Towards::Left, To::Word))
                } else if ctrl && c == 'u' {
                    Ok(Event::Clear)
                } else if ctrl && c == 'r' {
                    Ok(Event::CycleFilterMode)
                } else if ctrl && (c == 'n' || c == 'j') {
                    Ok(Event::Selection(Line::Down, For::SingleLine))
                } else if ctrl && (c == 'p' || c == 'k') {
                    Ok(Event::Selection(Line::Up, For::SingleLine))
                } else {
                    Ok(Event::Input(c))
                }
            },
            KeyCode::Esc => Ok(Event::Exit),
            KeyCode::Enter => Ok(Event::SelectN(0)),
            KeyCode::Left => Ok(Event::Cursor(Towards::Left, if ctrl { To::Word } else { To::Char })),
            KeyCode::Right => Ok(Event::Cursor(Towards::Right, if ctrl { To::Word } else { To::Char })),
            KeyCode::Home => Ok(Event::Cursor(Towards::Left, To::Edge)),
            KeyCode::End => Ok(Event::Cursor(Towards::Right, To::Edge)),
            KeyCode::Backspace => Ok(Event::Delete(Towards::Left, if ctrl { To::Word } else { To::Char })),
            KeyCode::Delete => Ok(Event::Delete(Towards::Right, if ctrl { To::Word } else { To::Char })),
            KeyCode::Down => Ok(Event::Selection(Line::Down, For::SingleLine)),
            KeyCode::Up => Ok(Event::Selection(Line::Up, For::SingleLine)),
            KeyCode::PageDown => Ok(Event::Selection(Line::Down, For::Page)),
            KeyCode::PageUp => Ok(Event::Selection(Line::Up, For::Page)),
            KeyCode::Other => Err(Skip),
        }
    }

    /// Maps a mouse action: scrolling moves the selection, the rest is skipped.
    pub fn from_mouse(m: MouseKind) -> (r: Result<Event, Skip>)
        ensures
            r == as_result(mouse_event(m)),
    {
        match m {
            MouseKind::ScrollDown => Ok(Event::Selection(Line::Down, For::SingleLine)),
            MouseKind::ScrollUp => Ok(Event::Selection(Line::Up, For::SingleLine)),
            MouseKind::Other => Err(Skip),
        }
    }

    /// Maps a raw input; focus changes, pastes and resizes are skipped.
    pub fn from_raw(r: RawEvent) -> (res: Result<Event, Skip>)
        ensures
            res == as_result(raw_event(r)),
    {
        match r {
            RawEvent::Key(k) => Event::from_key(k),
            RawEvent::Mouse(m) => Event::from_mouse(m),
            _ => Err(Skip),
        }
    }
}

} // verus!
