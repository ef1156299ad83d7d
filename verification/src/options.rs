//! What a caller chooses when a session begins.

use vstd::prelude::*;

verus! {

/// How the surface reads an escape byte that begins no known sequence, and
/// whether it reports the mouse.
#[derive(Clone, Copy, PartialEq, Eq, Structural, Debug)]
pub enum InputMode {
    /// The mode that the surface is in already.
    Current,
    /// The escape byte is the escape key.
    Esc,
    /// The escape byte puts the alt modifier on the next key.
    Alt,
    /// As `Esc`, and the mouse is reported.
    EscMouse,
    /// As `Alt`, and the mouse is reported.
    AltMouse,
}

impl InputMode {
    /// The number by which the surface knows this mode.
    pub open spec fn spec_code(self) -> i32 {
        match self {
            InputMode::Current => 0x00,
            InputMode::Esc => 0x01,
            InputMode::Alt => 0x02,
            InputMode::EscMouse => 0x05,
            InputMode::AltMouse => 0x06,
        }
    }

    /// The number by which the surface knows this mode.
    #[verifier::when_used_as_spec(spec_code)]
    pub fn code(self) -> (code: i32)
        ensures
            code == self.spec_code(),
    {
        match self {
            InputMode::Current => 0x00,
            InputMode::Esc => 0x01,
            InputMode::Alt => 0x02,
            InputMode::EscMouse => 0x05,
            InputMode::AltMouse => 0x06,
        }
    }
}

/// The choices with which a session begins.
#[derive(Clone, Copy, PartialEq, Eq, Structural, Debug)]
pub struct InitOptions {
    /// The input mode to select once the surface has started; `Current`
    /// selects none.
    pub input_mode: InputMode,
    /// Whether the standard error stream is held back while the session is
    /// alive, and written out when it ends.
    pub buffer_stderr: bool,
}

impl Default for InitOptions {
    /// No input mode selected, the standard error stream left alone.
    fn default() -> (options: InitOptions)
        ensures
            options == (InitOptions { input_mode: InputMode::Current, buffer_stderr: false }),
    {
        InitOptions { input_mode: InputMode::Current, buffer_stderr: false }
    }
}

} // verus!
