//! Key presses as the library sees them.

use vstd::prelude::*;
use vstd::string::*;
use crate::text::char_debug;
use crate::text::debug_char;
use crate::text::decimal;
use crate::text::decimal_of;

verus! {

/// One key press read from the terminal.
#[derive(Clone, Copy, Debug, PartialEq, Eq, Structural)]
pub enum Key {
    Backspace,
    Left,
    Right,
    Up,
    Down,
    Home,
    End,
    PageUp,
    PageDown,
    BackTab,
    Delete,
    Insert,
    /// A function key, by its number.
    F(u8),
    /// A plain character.
    Char(char),
    /// A character typed with Alt held.
    Alt(char),
    /// A character typed with Ctrl held.
    Ctrl(char),
    /// The null byte.
    Null,
    Esc,
}

/// The name of a key followed by what it carries, in round brackets.
pub open spec fn with_payload(name: Seq<char>, payload: Seq<char>) -> Seq<char> {
    name + seq!['('] + payload + seq![')']
}

/// A key as it is written in a message.
pub open spec fn key_text(key: Key) -> Seq<char> {
    match key {
        Key::Backspace => "Backspace"@,
        Key::Left => "Left"@,
        Key::Right => "Right"@,
        Key::Up => "Up"@,
        Key::Down => "Down"@,
        Key::Home => "Home"@,
        Key::End => "End"@,
        Key::PageUp => "PageUp"@,
        Key::PageDown => "PageDown"@,
        Key::BackTab => "BackTab"@,
        Key::Delete => "Delete"@,
        Key::Insert => "Insert"@,
        Key::F(n) => with_payload("F"@, decimal(n as nat)),
        Key::Char(c) => with_payload("Char"@, char_debug(c)),
        Key::Alt(c) => with_payload("Alt"@, char_debug(c)),
        Key::Ctrl(c) => with_payload("Ctrl"@, char_debug(c)),
        Key::Null => "Null"@,
        Key::Esc => "Esc"@,
    }
}

fn payload(name: &str, text: String) -> (s: String)
    ensures
        s@ == with_payload(name@, text@),
{
    let mut s = name.to_string();
    s.push('(');
    s.append(text.as_str());
    s.push(')');
    s
}

impl Key {
    /// The key as it is written in a message.
    pub fn describe(&self) -> (s: String)
        ensures
            s@ == key_text(*self),
    {
        match self {
            Key::Backspace => "Backspace".to_string(),
            Key::Left => "Left".to_string(),
            Key::Right => "Right".to_string(),
            Key::Up => "Up".to_string(),
            Key::Down => "Down".to_string(),
            Key::Home => "Home".to_string(),
            Key::End => "End".to_string(),
            Key::PageUp => "PageUp".to_string(),
            Key::PageDown => "PageDown".to_string(),
            Key::BackTab => "BackTab".to_string(),
            Key::Delete => "Delete".to_string(),
            Key::Insert => "Insert".to_string(),
            Key::F(n) => payload("F", decimal_of(*n as u64)),
            Key::Char(c) => payload("Char", debug_char(*c)),
            Key::Alt(c) => payload("Alt", debug_char(*c)),
            Key::Ctrl(c) => payload("Ctrl", debug_char(*c)),
            Key::Null => "Null".to_string(),
            Key::Esc => "Esc".to_string(),
        }
    }
}

} // verus!
