//! Events of the terminal, and how a raw record of the surface is read as
//! one.

use crate::keyboard::{key_of_code, Key};
use crate::mouse::{mouse_of_code, Mouse};
use vstd::prelude::*;

verus! {

/// The record that the terminal surface fills in when it reports an event.
///
/// Which fields mean anything depends on the kind of the event, which the
/// surface returns beside the record.
#[derive(Clone, Copy, PartialEq, Eq, Structural, Debug)]
pub struct RawEvent {
    /// The kind of the event as the record itself has it.
    pub etype: u8,
    /// The modifier keys held with a key.
    pub emod: u8,
    /// The code of a key or of a mouse button.
    pub key: u16,
    /// The code point of a character key.
    pub ch: u32,
    /// The new width of the terminal.
    pub w: i32,
    /// The new height of the terminal.
    pub h: i32,
    /// The column of a mouse event.
    pub x: i32,
    /// The row of a mouse event.
    pub y: i32,
}

impl RawEvent {
    /// The record with nothing in it, as it is handed to the surface to
    /// fill in.
    pub fn nil() -> (record: RawEvent)
        ensures
            record == (RawEvent { etype: 0, emod: 0, key: 0, ch: 0, w: 0, h: 0, x: 0, y: 0 }),
    {
        RawEvent { etype: 0, emod: 0, key: 0, ch: 0, w: 0, h: 0, x: 0, y: 0 }
    }
}

/// An event of the terminal.
#[derive(Clone, Copy, PartialEq, Eq, Structural, Debug)]
pub enum Event {
    /// A key as the surface reported it: modifier, key code and code point.
    KeyEventRaw(u8, u16, u32),
    /// A key, or `None` where the record stands for no known key.
    KeyEvent(Option<Key>),
    /// The terminal now has this width and height.
    ResizeEvent(i32, i32),
    /// A mouse button at a column and a row.
    MouseEvent(Mouse, i32, i32),
    /// Nothing happened.
    NoEvent,
}

/// Why the surface could not report an event.
#[derive(Clone, Copy, PartialEq, Eq, Structural, Debug)]
pub enum EventError {
    /// The surface reported a failure of its own.
    TermboxError,
    /// The surface returned a number that stands for no kind of event.
    Unknown(isize),
}

/// An event, or the reason why there is none.
pub type EventResult = Result<Event, EventError>;

/// Whether a number is a Unicode scalar value: a code point that is no
/// surrogate.
pub open spec fn is_scalar_value(code: u32) -> bool {
    code <= 0xD7FF || 0xE000 <= code <= 0x10FFFF
}

/// `char::from_u32` of the standard library: the character of a code point,
/// and `None` exactly for the numbers that are no Unicode scalar value.
pub assume_specification[ char::from_u32 ](code: u32) -> (character: Option<char>)
    ensures
        character == (if is_scalar_value(code) {
            Some(code as char)
        } else {
            None
        }),
;

/// The key that a key record stands for: the character of the code point
/// where the key code is zero, else the key of the key code.
pub open spec fn key_of_record(record: RawEvent) -> Option<Key> {
    if record.key == 0 {
        if is_scalar_value(record.ch) {
            Some(Key::Char(record.ch as char))
        } else {
            None
        }
    } else {
        key_of_code(record.key)
    }
}

/// The button of a mouse record, the left one where the code stands for
/// none.
pub open spec fn button_of_record(record: RawEvent) -> Mouse {
    match mouse_of_code(record.key) {
        Some(button) => button,
        None => Mouse::Left,
    }
}

/// The error that a number stands for which is no kind of event.
pub open spec fn error_of_kind(kind: int) -> EventError {
    if kind == -1 {
        EventError::TermboxError
    } else {
        EventError::Unknown(kind as isize)
    }
}

/// What a record means, given the kind that the surface returned with it.
///
/// The kind alone selects the variant: 0 is no event, 1 a key, 2 a resize,
/// 3 the mouse, and every other number an error.
pub open spec fn event_of_record(kind: i32, record: RawEvent, raw: bool) -> EventResult {
    if kind == 0 {
        Ok(Event::NoEvent)
    } else if kind == 1 {
        if raw {
            Ok(Event::KeyEventRaw(record.emod, record.key, record.ch))
        } else {
            Ok(Event::KeyEvent(key_of_record(record)))
        }
    } else if kind == 2 {
        Ok(Event::ResizeEvent(record.w, record.h))
    } else if kind == 3 {
        Ok(Event::MouseEvent(button_of_record(record), record.x, record.y))
    } else {
        Err(error_of_kind(kind as int))
    }
}

impl EventError {
    /// The error that the number `n` stands for. There is one for every
    /// number.
    pub fn from_i64(n: i64) -> (error: Option<EventError>)
        ensures
            error == Some(error_of_kind(n as int)),
    {
        match n {
            -1 => Some(EventError::TermboxError),
            n => Some(EventError::Unknown(#[verifier::truncate] (n as isize))),
        }
    }

    /// The error that the unsigned number `n` stands for: always an unknown
    /// one, since the known ones are negative.
    pub fn from_u64(n: u64) -> (error: Option<EventError>)
        ensures
            error == Some(EventError::Unknown(n as isize)),
    {
        Some(EventError::Unknown(#[verifier::truncate] (n as isize)))
    }

    /// The error that the number `n` stands for.
    pub fn from_isize(n: isize) -> (error: Option<EventError>)
        ensures
            error == Some(error_of_kind(n as int)),
    {
        EventError::from_i64(n as i64)
    }

    /// What the error means, in words.
    pub open spec fn spec_description(&self) -> Seq<char> {
        match self {
            EventError::TermboxError => "Error in Termbox"@,
            EventError::Unknown(_) => "Unknown error in Termbox"@,
        }
    }

    /// What the error means, in words.
    pub fn description(&self) -> (text: &'static str)
        ensures
            text@ == self.spec_description(),
    {
        match self {
            EventError::TermboxError => "Error in Termbox",
            EventError::Unknown(_) => "Unknown error in Termbox",
        }
    }
}

/// Reads a record of the surface as an event, given the kind that the
/// surface returned with it.
///
/// With `raw` set, a key comes out as the surface reported it; without, it
/// comes out as the [`Key`] that the record stands for.
pub fn unpack_event(ev_type: i32, ev: &RawEvent, raw: bool) -> (result: EventResult)
    ensures
        result == event_of_record(ev_type, *ev, raw),
{
    match ev_type {
        0 => Ok(Event::NoEvent),
        1 => Ok(
            if raw {
                Event::KeyEventRaw(ev.emod, ev.key, ev.ch)
            } else {
                let k = match ev.key {
                    0 => match char::from_u32(ev.ch) {
                        Some(c) => Some(Key::Char(c)),
                        None => None,
                    },
                    a => Key::from_code(a),
                };
                Event::KeyEvent(k)
            },
        ),
        2 => Ok(Event::ResizeEvent(ev.w, ev.h)),
        3 => {
            let mouse = match Mouse::from_code(ev.key) {
                Some(button) => button,
                None => Mouse::Left,
            };
            Ok(Event::MouseEvent(mouse, ev.x, ev.y))
        },
        n => Err(EventError::from_isize(n as isize).unwrap()),
    }
}

/// The kind selects the variant, and nothing else does.
///
/// Kind 0 is no event, whatever the record holds. Kind 1 is a key: as the
/// surface reported it where `raw` is set, else the character of the code
/// point where the key code is zero and the code point a scalar value, no
/// key where it is none, and the key of the key code where that is not zero.
/// Kind 2 is a resize to the width and height of the record, be they
/// positive or not. Kind 3 is the mouse, with the left button where the code
/// stands for none. Every other kind is an error: `TermboxError` for -1,
/// else `Unknown` with the kind itself.
pub proof fn lemma_kind_selects_variant(kind: i32, record: RawEvent, raw: bool)
    ensures
        kind == 0 ==> event_of_record(kind, record, raw) == Ok::<Event, EventError>(Event::NoEvent),
        kind == 1 && raw ==> event_of_record(kind, record, raw) == Ok::<Event, EventError>(
            Event::KeyEventRaw(record.emod, record.key, record.ch),
        ),
        kind == 1 && !raw && record.key == 0 && is_scalar_value(record.ch) ==> event_of_record(
            kind,
            record,
            raw,
        ) == Ok::<Event, EventError>(Event::KeyEvent(Some(Key::Char(record.ch as char)))),
        kind == 1 && !raw && record.key == 0 && !is_scalar_value(record.ch) ==> event_of_record(
            kind,
            record,
            raw,
        ) == Ok::<Event, EventError>(Event::KeyEvent(None)),
        kind == 1 && !raw && record.key != 0 ==> event_of_record(kind, record, raw) == Ok::<
            Event,
            EventError,
        >(Event::KeyEvent(key_of_code(record.key))),
        kind == 2 ==> event_of_record(kind, record, raw) == Ok::<Event, EventError>(
            Event::ResizeEvent(record.w, record.h),
        ),
        kind == 3 ==> event_of_record(kind, record, raw) == Ok::<Event, EventError>(
            Event::MouseEvent(button_of_record(record), record.x, record.y),
        ),
        mouse_of_code(record.key) is None ==> button_of_record(record) == Mouse::Left,
        mouse_of_code(record.key) is Some ==> Some(button_of_record(record)) == mouse_of_code(
            record.key,
        ),
        kind == -1 ==> event_of_record(kind, record, raw) == Err::<Event, EventError>(
            EventError::TermboxError,
        ),
        kind < -1 || kind > 3 ==> event_of_record(kind, record, raw) == Err::<Event, EventError>(
            EventError::Unknown(kind as isize),
        ) && kind as isize == kind,
        0 <= kind <= 3 <==> event_of_record(kind, record, raw) is Ok,
{
}

} // verus!
