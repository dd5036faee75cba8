//! Logical keys, the text that names a key in the help screen, and the
//! bindings of the logical actions.

use vstd::prelude::*;
use vstd::string::StringExecFns;
use crate::text::push_char;

verus! {

/// A key press after decoding, independent of the terminal driver.
#[derive(Clone, Copy, Debug, PartialEq, Eq, Structural)]
pub enum Key {
    Enter,
    Tab,
    Backspace,
    Esc,
    Left,
    Right,
    Up,
    Down,
    Ins,
    Delete,
    Home,
    End,
    PageUp,
    PageDown,
    /// A character typed on its own.
    Char(char),
    /// A character typed with the control key held.
    Ctrl(char),
    /// A character typed with the alt key held.
    Alt(char),
    /// Any key press that has no logical meaning.
    Unknown,
}

/// The keys bound to the logical actions that the interface loop and the
/// help screen refer to.
#[derive(Clone, Copy, Debug, PartialEq, Eq, Structural)]
pub struct KeyBindings {
    /// Leaves the dashboard at once.
    pub quit: Key,
    /// Confirms the current selection.
    pub submit: Key,
    /// Jumps to the view over all contexts.
    pub jump_to_all_context: Key,
}

/// A modifier name, a character and the closing bracket; the space
/// character is spelled out.
pub open spec fn chord_label(opening: Seq<char>, spelled: Seq<char>, c: char) -> Seq<char> {
    if c == ' ' {
        spelled
    } else {
        opening.push(c) + ">"@
    }
}

/// The text that names a key in the help screen.
pub open spec fn key_label(key: Key) -> Seq<char> {
    match key {
        Key::Alt(c) => chord_label("<Alt+"@, "<Alt+Space>"@, c),
        Key::Ctrl(c) => chord_label("<Ctrl+"@, "<Ctrl+Space>"@, c),
        Key::Char(c) => chord_label("<"@, "<Space>"@, c),
        Key::Left => "<Left Arrow Key>"@,
        Key::Right => "<Right Arrow Key>"@,
        Key::Up => "<Up Arrow Key>"@,
        Key::Down => "<Down Arrow Key>"@,
        Key::Enter => "<Enter>"@,
        Key::Tab => "<Tab>"@,
        Key::Backspace => "<Backspace>"@,
        Key::Esc => "<Esc>"@,
        Key::Ins => "<Ins>"@,
        Key::Delete => "<Delete>"@,
        Key::Home => "<Home>"@,
        Key::End => "<End>"@,
        Key::PageUp => "<PageUp>"@,
        Key::PageDown => "<PageDown>"@,
        Key::Unknown => "Unknown"@,
    }
}

/// The bindings in force when the user has configured none.
pub open spec fn default_bindings() -> KeyBindings {
    KeyBindings {
        quit: Key::Ctrl('c'),
        submit: Key::Enter,
        jump_to_all_context: Key::Char('A'),
    }
}

fn chord(opening: &str, spelled: &str, c: char) -> (label: String)
    ensures
        label@ == chord_label(opening@, spelled@, c),
{
    if c == ' ' {
        String::from_str(spelled)
    } else {
        let mut label = String::from_str(opening);
        push_char(&mut label, c);
        label.append(">");
        label
    }
}

impl Key {
    /// The text that names this key in the help screen.
    pub fn to_string(&self) -> (label: String)
        ensures
            label@ == key_label(*self),
    {
        match *self {
            Key::Alt(c) => chord("<Alt+", "<Alt+Space>", c),
            Key::Ctrl(c) => chord("<Ctrl+", "<Ctrl+Space>", c),
            Key::Char(c) => chord("<", "<Space>", c),
            Key::Left => String::from_str("<Left Arrow Key>"),
            Key::Right => String::from_str("<Right Arrow Key>"),
            Key::Up => String::from_str("<Up Arrow Key>"),
            Key::Down => String::from_str("<Down Arrow Key>"),
            Key::Enter => String::from_str("<Enter>"),
            Key::Tab => String::from_str("<Tab>"),
            Key::Backspace => String::from_str("<Backspace>"),
            Key::Esc => String::from_str("<Esc>"),
            Key::Ins => String::from_str("<Ins>"),
            Key::Delete => String::from_str("<Delete>"),
            Key::Home => String::from_str("<Home>"),
            Key::End => String::from_str("<End>"),
            Key::PageUp => String::from_str("<PageUp>"),
            Key::PageDown => String::from_str("<PageDown>"),
            Key::Unknown => String::from_str("Unknown"),
        }
    }
}

/// The bindings in force when the user has configured none.
pub fn default_keybinding() -> (bindings: KeyBindings)
    ensures
        bindings == default_bindings(),
{
    KeyBindings { quit: Key::Ctrl('c'), submit: Key::Enter, jump_to_all_context: Key::Char('A') }
}

} // verus!
