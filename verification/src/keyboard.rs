//! The keys that the terminal surface reports by number.

use vstd::prelude::*;

verus! {

/// A key of the keyboard.
#[derive(Clone, Copy, PartialEq, Eq, Structural, Debug)]
pub enum Key {
    Tab,
    Enter,
    Esc,
    Backspace,
    Right,
    Left,
    Up,
    Down,
    Delete,
    Insert,
    Home,
    End,
    PageUp,
    PageDown,
    /// A key that stands for a character.
    Char(char),
    /// A character typed while the control key was held.
    Ctrl(char),
    /// A function key, counted from 1.
    F(u32),
}

/// The key that a key code stands for, if it stands for one.
///
/// The codes from 1 to 26 are the control combinations of the letters in
/// alphabetical order, but for the three that have a key of their own. The
/// twelve highest codes are the function keys, counted downwards, and the
/// ten below them the editing and arrow keys.
pub open spec fn key_of_code(code: u16) -> Option<Key> {
    if code == 9 {
        Some(Key::Tab)
    } else if code == 13 {
        Some(Key::Enter)
    } else if 1 <= code <= 26 {
        Some(Key::Ctrl((96 + code) as char))
    } else if code == 27 {
        Some(Key::Esc)
    } else if code == 28 {
        Some(Key::Ctrl('\\'))
    } else if code == 29 {
        Some(Key::Ctrl(']'))
    } else if code == 30 {
        Some(Key::Ctrl('6'))
    } else if code == 31 {
        Some(Key::Ctrl('/'))
    } else if code == 32 {
        Some(Key::Char(' '))
    } else if code == 127 {
        Some(Key::Backspace)
    } else if 65524 <= code {
        Some(Key::F((65536 - code) as u32))
    } else if code == 65523 {
        Some(Key::Insert)
    } else if code == 65522 {
        Some(Key::Delete)
    } else if code == 65521 {
        Some(Key::Home)
    } else if code == 65520 {
        Some(Key::End)
    } else if code == 65519 {
        Some(Key::PageUp)
    } else if code == 65518 {
        Some(Key::PageDown)
    } else if code == 65517 {
        Some(Key::Up)
    } else if code == 65516 {
        Some(Key::Down)
    } else if code == 65515 {
        Some(Key::Left)
    } else if code == 65514 {
        Some(Key::Right)
    } else {
        None
    }
}

impl Key {
    /// Looks a key code up; `None` for a code that stands for no key.
    pub fn from_code(code: u16) -> (key: Option<Key>)
        ensures
            key == key_of_code(code),
    {
        match code {
            1 => Some(Key::Ctrl('a')),
            2 => Some(Key::Ctrl('b')),
            3 => Some(Key::Ctrl('c')),
            4 => Some(Key::Ctrl('d')),
            5 => Some(Key::Ctrl('e')),
            6 => Some(Key::Ctrl('f')),
            7 => Some(Key::Ctrl('g')),
            8 => Some(Key::Ctrl('h')),
            9 => Some(Key::Tab),
            10 => Some(Key::Ctrl('j')),
            11 => Some(Key::Ctrl('k')),
            12 => Some(Key::Ctrl('l')),
            13 => Some(Key::Enter),
            14 => Some(Key::Ctrl('n')),
            15 => Some(Key::Ctrl('o')),
            16 => Some(Key::Ctrl('p')),
            17 => Some(Key::Ctrl('q')),
            18 => Some(Key::Ctrl('r')),
            19 => Some(Key::Ctrl('s')),
            20 => Some(Key::Ctrl('t')),
            21 => Some(Key::Ctrl('u')),
            22 => Some(Key::Ctrl('v')),
            23 => Some(Key::Ctrl('w')),
            24 => Some(Key::Ctrl('x')),
            25 => Some(Key::Ctrl('y')),
            26 => Some(Key::Ctrl('z')),
            27 => Some(Key::Esc),
            28 => Some(Key::Ctrl('\\')),
            29 => Some(Key::Ctrl(']')),
            30 => Some(Key::Ctrl('6')),
            31 => Some(Key::Ctrl('/')),
            32 => Some(Key::Char(' ')),
            127 => Some(Key::Backspace),
            65514 => Some(Key::Right),
            65515 => Some(Key::Left),
            65516 => Some(Key::Down),
            65517 => Some(Key::Up),
            65518 => Some(Key::PageDown),
            65519 => Some(Key::PageUp),
            65520 => Some(Key::End),
            65521 => Some(Key::Home),
            65522 => Some(Key::Delete),
            65523 => Some(Key::Insert),
            65524 => Some(Key::F(12)),
            65525 => Some(Key::F(11)),
            65526 => Some(Key::F(10)),
            65527 => Some(Key::F(9)),
            65528 => Some(Key::F(8)),
            65529 => Some(Key::F(7)),
            65530 => Some(Key::F(6)),
            65531 => Some(Key::F(5)),
            65532 => Some(Key::F(4)),
            65533 => Some(Key::F(3)),
            65534 => Some(Key::F(2)),
            65535 => Some(Key::F(1)),
            _ => None,
        }
    }
}

} // verus!
