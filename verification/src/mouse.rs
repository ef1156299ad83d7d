//! The mouse buttons that the terminal surface reports by number.

use vstd::prelude::*;

verus! {

/// A button of the mouse, or a turn of its wheel.
#[derive(Clone, Copy, PartialEq, Eq, Structural, Debug)]
pub enum Mouse {
    Left,
    Right,
    Middle,
    Release,
    WheelUp,
    WheelDown,
}

/// The button that a mouse code stands for, if it stands for one.
pub open spec fn mouse_of_code(code: u16) -> Option<Mouse> {
    if code == 65513 {
        Some(Mouse::Left)
    } else if code == 65512 {
        Some(Mouse::Right)
    } else if code == 65511 {
        Some(Mouse::Middle)
    } else if code == 65510 {
        Some(Mouse::Release)
    } else if code == 65509 {
        Some(Mouse::WheelUp)
    } else if code == 65508 {
        Some(Mouse::WheelDown)
    } else {
        None
    }
}

impl Mouse {
    /// Looks a mouse code up; `None` for a code that stands for no button.
    pub fn from_code(code: u16) -> (button: Option<Mouse>)
        ensures
            button == mouse_of_code(code),
    {
        match code {
            65513 => Some(Mouse::Left),
            65512 => Some(Mouse::Right),
            65511 => Some(Mouse::Middle),
            65510 => Some(Mouse::Release),
            65509 => Some(Mouse::WheelUp),
            65508 => Some(Mouse::WheelDown),
            _ => None,
        }
    }
}

} // verus!
