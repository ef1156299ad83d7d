//! A safe, typed layer over a character-terminal control surface.
//!
//! The crate holds the logic of a terminal session and leaves the terminal
//! itself to its caller: it decides which requests go to the surface and in
//! what order, and it classifies what the surface hands back.

pub mod error;
pub mod event;
pub mod keyboard;
pub mod mouse;
pub mod options;
pub mod running;
pub mod session;
pub mod style;

pub use error::InitError;
pub use event::{unpack_event, Event, EventError, EventResult, RawEvent};
pub use keyboard::Key;
pub use mouse::Mouse;
pub use options::{InitOptions, InputMode};
pub use running::{release, run, running, RunningFlag, RunningGuard};
pub use session::{Request, RustBox, Startup, Teardown};
pub use style::{Color, Style, RB_BOLD, RB_NORMAL, RB_REVERSE, RB_UNDERLINE};
