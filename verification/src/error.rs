//! Why a session could not begin.

use vstd::prelude::*;

verus! {

/// `std::io::Error`, which this crate carries from the caller that met it
/// to the caller that reports it, and never looks into.
#[verifier::external_type_specification]
#[verifier::external_body]
pub struct ExIoError(std::io::Error);

/// Why a session could not begin.
#[derive(Debug)]
pub enum InitError {
    /// The standard error stream could not be held back; the cause is kept.
    BufferStderrFailed(std::io::Error),
    /// Another session is alive.
    AlreadyOpen,
    /// The surface does not know the terminal.
    UnsupportedTerminal,
    /// The surface could not open the terminal device.
    FailedToOpenTTy,
    /// The surface could not set up the pipe that it traps signals with.
    PipeTrapError,
    /// The surface failed with a code that has no name.
    Unknown(isize),
}

/// The error that a code of the surface's start stands for.
pub open spec fn init_error_of_code(code: int) -> InitError {
    if code == -1 {
        InitError::UnsupportedTerminal
    } else if code == -2 {
        InitError::FailedToOpenTTy
    } else if code == -3 {
        InitError::PipeTrapError
    } else {
        InitError::Unknown(code as isize)
    }
}

impl InitError {
    /// The error that the code `n` stands for. There is one for every code,
    /// and none of them is `AlreadyOpen` or `BufferStderrFailed`, which
    /// the surface never reports.
    pub fn from_i64(n: i64) -> (error: Option<InitError>)
        ensures
            error == Some(init_error_of_code(n as int)),
    {
        match n {
            -1 => Some(InitError::UnsupportedTerminal),
            -2 => Some(InitError::FailedToOpenTTy),
            -3 => Some(InitError::PipeTrapError),
            n => Some(InitError::Unknown(#[verifier::truncate] (n as isize))),
        }
    }

    /// The error that the unsigned code `n` stands for: always an unknown
    /// one, since the known ones are negative.
    pub fn from_u64(n: u64) -> (error: Option<InitError>)
        ensures
            error == Some(InitError::Unknown(n as isize)),
    {
        Some(InitError::Unknown(#[verifier::truncate] (n as isize)))
    }

    /// The error that the code `n` stands for.
    pub fn from_isize(n: isize) -> (error: Option<InitError>)
        ensures
            error == Some(init_error_of_code(n as int)),
    {
        InitError::from_i64(n as i64)
    }

    /// What the error means, in words.
    pub open spec fn spec_description(&self) -> Seq<char> {
        match self {
            InitError::BufferStderrFailed(_) => "Could not redirect stderr"@,
            InitError::AlreadyOpen => "RustBox is already open"@,
            InitError::UnsupportedTerminal => "Unsupported terminal"@,
            InitError::FailedToOpenTTy => "Failed to open TTY"@,
            InitError::PipeTrapError => "Pipe trap error"@,
            InitError::Unknown(_) => "Unknown error from Termbox"@,
        }
    }

    /// What the error means, in words.
    pub fn description(&self) -> (text: &'static str)
        ensures
            text@ == self.spec_description(),
    {
        match self {
            InitError::BufferStderrFailed(_) => "Could not redirect stderr",
            InitError::AlreadyOpen => "RustBox is already open",
            InitError::UnsupportedTerminal => "Unsupported terminal",
            InitError::FailedToOpenTTy => "Failed to open TTY",
            InitError::PipeTrapError => "Pipe trap error",
            InitError::Unknown(_) => "Unknown error from Termbox",
        }
    }

    /// The failure that lies under this one: that of the standard error
    /// stream, and none for any other error.
    pub fn cause(&self) -> (cause: Option<&std::io::Error>)
        ensures
            match *self {
                InitError::BufferStderrFailed(e) => cause == Some(&e),
                _ => cause is None,
            },
    {
        match self {
            InitError::BufferStderrFailed(e) => Some(e),
            _ => None,
        }
    }
}

} // verus!
