//! The life of a session: how it begins, what it asks of the terminal
//! surface while it is alive, and how it ends.
//!
//! Nothing here touches the terminal. Each step returns a [`Request`] for
//! the caller to carry out, and takes what the surface answered. The order
//! of the requests is the order in which the caller carries them out:
//!
//! 1. [`RustBox::init`] takes the running flag, and fails if it is taken.
//! 2. [`Startup::request`] asks for the standard error stream to be held, if
//!    the options say so, and then for the surface to start;
//!    [`Startup::stderr_answered`] and [`Startup::surface_answered`] take the
//!    answers. The second hands out the [`RustBox`].
//! 3. [`RustBox::close`] ends the session, and [`Teardown::next`] asks for
//!    what it held to be released, one request at a time: the standard error
//!    stream first, the surface second. When nothing is left it gives the
//!    guard back, so that the flag is clear only after everything else is
//!    done.

use crate::error::{init_error_of_code, InitError};
use crate::event::{event_of_record, unpack_event, EventResult, RawEvent};
use crate::options::{InitOptions, InputMode};
use crate::running::{release, run, RunningFlag, RunningGuard};
use crate::style::{background_word, foreground_word, Color, Style};
use vstd::string::StrSliceExecFns;
use vstd::prelude::*;

verus! {

/// Something that a session asks its caller to do.
#[derive(Clone, Copy, PartialEq, Eq, Structural, Debug)]
pub enum Request {
    /// Hold back what is written to the standard error stream.
    HoldStderr,
    /// Write out what was held back, and hold back no more.
    ReleaseStderr,
    /// Start the surface.
    Init,
    /// Shut the surface down.
    Shutdown,
    /// Clear the screen buffer.
    Clear,
    /// Show the screen buffer on the terminal.
    Present,
    /// Put the cursor at a column and a row.
    SetCursor(i32, i32),
    /// Set the cell at a column and a row to a code point, with the
    /// attribute words of its foreground and its background.
    ChangeCell(i32, i32, u32, u16, u16),
    /// Select the input mode with this code.
    SelectInputMode(i32),
}

/// A session that is beginning: it holds the running guard, and the
/// surface has not started.
#[derive(Debug)]
pub struct Startup {
    options: InitOptions,
    stderr_held: bool,
    guard: RunningGuard,
}

/// A session that is alive: the handle through which every request to the
/// surface is made.
#[derive(Debug)]
pub struct RustBox {
    stderr_held: bool,
    guard: RunningGuard,
}

/// A session that is ending: it still holds the running guard, and what
/// else is to be released.
#[derive(Debug)]
pub struct Teardown {
    stderr_held: bool,
    surface_started: bool,
    guard: RunningGuard,
}

/// The request to select the input mode that the options name, and none
/// where they name the current one.
pub open spec fn first_request(options: InitOptions) -> Option<Request> {
    if options.input_mode == InputMode::Current {
        None
    } else {
        Some(Request::SelectInputMode(options.input_mode.code()))
    }
}

impl Startup {
    /// The options that the session began with.
    pub closed spec fn options(&self) -> InitOptions {
        self.options
    }

    /// Whether the standard error stream is held back.
    pub closed spec fn holds_stderr(&self) -> bool {
        self.stderr_held
    }

    /// What the caller is to do next: hold the standard error stream, if
    /// the options ask for it and it is not held yet, else start the
    /// surface.
    pub open spec fn spec_request(&self) -> Request {
        if self.options().buffer_stderr && !self.holds_stderr() {
            Request::HoldStderr
        } else {
            Request::Init
        }
    }

    /// What the caller is to do next: hold the standard error stream, if
    /// the options ask for it and it is not held yet, else start the
    /// surface.
    #[verifier::when_used_as_spec(spec_request)]
    pub fn request(&self) -> (request: Request)
        ensures
            request == self.spec_request(),
    {
        if self.options.buffer_stderr && !self.stderr_held {
            Request::HoldStderr
        } else {
            Request::Init
        }
    }

    /// Takes the answer to [`Request::HoldStderr`].
    ///
    /// If the stream is held, the session goes on and will release it when
    /// it ends. If it could not be held, the session is over: the guard is
    /// given back at once, and the error carries the cause.
    pub fn stderr_answered(
        self,
        outcome: Result<(), std::io::Error>,
        flag: &mut RunningFlag,
    ) -> (result: Result<Startup, InitError>)
        ensures
            match outcome {
                Ok(_) => {
                    &&& result matches Ok(startup)
                    &&& startup.options() == self.options()
                    &&& startup.holds_stderr()
                    &&& *final(flag) == *old(flag)
                },
                Err(cause) => {
                    &&& result matches Err(InitError::BufferStderrFailed(kept))
                    &&& kept == cause
                    &&& *final(flag) == old(flag).after_release()
                    &&& !final(flag).is_running()
                },
            },
    {
        let Startup { options, stderr_held: _, guard } = self;
        match outcome {
            Ok(_) => Ok(Startup { options, stderr_held: true, guard }),
            Err(cause) => {
                release(flag, guard);
                Err(InitError::BufferStderrFailed(cause))
            },
        }
    }

    /// Takes the answer to [`Request::Init`]: the code that the surface
    /// returned from its start.
    ///
    /// Zero makes the session alive; with the handle comes the request to
    /// select the input mode, if the options name one. Any other code ends
    /// the session with the error that the code stands for, and with the
    /// teardown that releases what the session held.
    pub fn surface_answered(self, code: i32) -> (result: Result<
        (RustBox, Option<Request>),
        (InitError, Teardown),
    >)
        ensures
            code == 0 ==> {
                &&& result matches Ok((handle, first))
                &&& handle.holds_stderr() == self.holds_stderr()
                &&& first == first_request(self.options())
            },
            code != 0 ==> {
                &&& result matches Err((error, teardown))
                &&& error == init_error_of_code(code as int)
                &&& teardown.holds_stderr() == self.holds_stderr()
                &&& !teardown.surface_started()
            },
    {
        let Startup { options, stderr_held, guard } = self;
        match code {
            0 => {
                let handle = RustBox { stderr_held, guard };
                let first = match options.input_mode {
                    InputMode::Current => None,
                    mode => Some(handle.set_input_mode(mode)),
                };
                Ok((handle, first))
            },
            res => {
                let error = InitError::from_isize(res as isize).unwrap();
                Err((error, Teardown { stderr_held, surface_started: false, guard }))
            },
        }
    }
}

impl RustBox {
    /// Whether the standard error stream is held back while this session
    /// is alive.
    pub closed spec fn holds_stderr(&self) -> bool {
        self.stderr_held
    }

    /// Whether a flag lets a session begin: it does while no session is
    /// alive.
    pub open spec fn admits(flag: RunningFlag) -> bool {
        !flag.is_running()
    }

    /// Begins a session with the given options.
    ///
    /// The session begins if the flag admits it, and the flag is set from
    /// then on. If another session is alive, the call fails with
    /// `AlreadyOpen` and changes nothing.
    pub fn init(opts: InitOptions, flag: &mut RunningFlag) -> (result: Result<Startup, InitError>)
        ensures
            *final(flag) == old(flag).after_run(),
            !RustBox::admits(*final(flag)),
            RustBox::admits(*old(flag)) ==> {
                &&& result matches Ok(startup)
                &&& startup.options() == opts
                &&& !startup.holds_stderr()
            },
            !RustBox::admits(*old(flag)) ==> {
                &&& result matches Err(InitError::AlreadyOpen)
                &&& *final(flag) == *old(flag)
            },
    {
        proof {
            crate::running::lemma_one_guard_at_a_time(*flag);
        }
        match run(flag) {
            Some(guard) => Ok(Startup { options: opts, stderr_held: false, guard }),
            None => Err(InitError::AlreadyOpen),
        }
    }

    /// The request to select an input mode.
    pub fn set_input_mode(&self, mode: InputMode) -> (request: Request)
        ensures
            request == Request::SelectInputMode(mode.code()),
    {
        Request::SelectInputMode(mode.code())
    }

    /// The width of the screen, from the number that the surface reported.
    pub fn width(&self, reported: i32) -> (width: usize)
        ensures
            width == reported as usize,
    {
        #[verifier::truncate]
        (reported as usize)
    }

    /// The height of the screen, from the number that the surface
    /// reported.
    pub fn height(&self, reported: i32) -> (height: usize)
        ensures
            height == reported as usize,
    {
        #[verifier::truncate]
        (reported as usize)
    }

    /// The request to clear the screen buffer.
    pub fn clear(&self) -> (request: Request)
        ensures
            request == Request::Clear,
    {
        Request::Clear
    }

    /// The request to show the screen buffer on the terminal.
    pub fn present(&self) -> (request: Request)
        ensures
            request == Request::Present,
    {
        Request::Present
    }

    /// The request to put the cursor at a column and a row. The surface
    /// counts in 32 bits: of a larger number it gets the low 32 bits.
    pub fn set_cursor(&self, x: isize, y: isize) -> (request: Request)
        ensures
            request == Request::SetCursor(x as i32, y as i32),
    {
        Request::SetCursor(#[verifier::truncate] (x as i32), #[verifier::truncate] (y as i32))
    }

    /// The request to set one cell. The surface counts in 32 bits: of a
    /// larger number it gets the low 32 bits.
    pub open spec fn spec_change_cell(x: usize, y: usize, ch: u32, fg: u16, bg: u16) -> Request {
        Request::ChangeCell(x as i32, y as i32, ch, fg, bg)
    }

    /// The request to set the cell at a column and a row to a code point,
    /// with the attribute words of its foreground and its background.
    pub fn change_cell(&self, x: usize, y: usize, ch: u32, fg: u16, bg: u16) -> (request: Request)
        ensures
            request == RustBox::spec_change_cell(x, y, ch, fg, bg),
    {
        Request::ChangeCell(
            #[verifier::truncate]
            (x as i32),
            #[verifier::truncate]
            (y as i32),
            ch,
            fg,
            bg,
        )
    }

    /// The request that prints one character: the cell gets the
    /// character's code point, as foreground the color `fg` with the
    /// attributes of the style, and as background the color `bg`.
    pub open spec fn spec_print_char(
        x: usize,
        y: usize,
        sty: Style,
        fg: Color,
        bg: Color,
        ch: char,
    ) -> Request {
        RustBox::spec_change_cell(
            x,
            y,
            ch as u32,
            foreground_word(sty, fg),
            background_word(bg),
        )
    }

    /// The requests that print a text from a column on, one cell for each
    /// character, from left to right.
    pub open spec fn spec_print(
        x: usize,
        y: usize,
        sty: Style,
        fg: Color,
        bg: Color,
        text: Seq<char>,
    ) -> Seq<Request> {
        Seq::new(
            text.len(),
            |i: int| RustBox::spec_print_char((x + i) as usize, y, sty, fg, bg, text[i]),
        )
    }

    /// The requests that print a string at a column and a row, with a
    /// style, a foreground and a background color.
    ///
    /// The column of the last character must be a `usize`.
    pub fn print(
        &self,
        x: usize,
        y: usize,
        sty: Style,
        fg: Color,
        bg: Color,
        s: &str,
    ) -> (requests: Vec<Request>)
        requires
            s@.len() > 0 ==> x + s@.len() - 1 <= usize::MAX,
        ensures
            requests@ == RustBox::spec_print(x, y, sty, fg, bg, s@),
    {
        let fg_word = sty.foreground(fg).bits();
        let bg_word = Style::from_color(bg).bits();
        let count = s.unicode_len();
        let mut requests: Vec<Request> = Vec::with_capacity(count);
        let mut i: usize = 0;
        for ch in chars: s.chars()
            invariant
                chars.seq() == s@,
                i == chars.index(),
                s@.len() == count,
                s@.len() > 0 ==> x + s@.len() - 1 <= usize::MAX,
                fg_word == foreground_word(sty, fg),
                bg_word == background_word(bg),
                requests@ == RustBox::spec_print(x, y, sty, fg, bg, s@.take(i as int)),
        {
            requests.push(self.change_cell(x + i, y, ch as u32, fg_word, bg_word));
            i = i + 1;
            assert(requests@ =~= RustBox::spec_print(x, y, sty, fg, bg, s@.take(i as int)));
        }
        assert(s@.take(i as int) =~= s@);
        requests
    }

    /// The request that prints a single character at a column and a row.
    pub fn print_char(
        &self,
        x: usize,
        y: usize,
        sty: Style,
        fg: Color,
        bg: Color,
        ch: char,
    ) -> (request: Request)
        ensures
            request == RustBox::spec_print_char(x, y, sty, fg, bg, ch),
    {
        let fg_word = sty.foreground(fg).bits();
        let bg_word = Style::from_color(bg).bits();
        self.change_cell(x, y, ch as u32, fg_word, bg_word)
    }

    /// Reads what the surface answered when it was asked to wait for an
    /// event: the kind that it returned and the record that it filled in.
    pub fn poll_event(&self, ev_type: i32, ev: &RawEvent, raw: bool) -> (result: EventResult)
        ensures
            result == event_of_record(ev_type, *ev, raw),
    {
        unpack_event(ev_type, ev, raw)
    }

    /// The time to wait for an event, as the surface takes it: a number of
    /// milliseconds in 32 bits. Of a larger number the surface gets the low
    /// 32 bits.
    pub fn peek_timeout(&self, milliseconds: i64) -> (timeout: i32)
        ensures
            timeout == milliseconds as i32,
    {
        #[verifier::truncate]
        (milliseconds as i32)
    }

    /// Reads what the surface answered when it was asked for an event
    /// within a time: the kind that it returned and the record that it
    /// filled in. When the time ran out the kind is 0, and there is no
    /// event.
    pub fn peek_event(&self, ev_type: i32, ev: &RawEvent, raw: bool) -> (result: EventResult)
        ensures
            result == event_of_record(ev_type, *ev, raw),
    {
        unpack_event(ev_type, ev, raw)
    }

    /// Ends the session. What it held is released by the teardown that
    /// comes back.
    pub fn close(self) -> (teardown: Teardown)
        ensures
            teardown.holds_stderr() == self.holds_stderr(),
            teardown.surface_started(),
    {
        let RustBox { stderr_held, guard } = self;
        Teardown { stderr_held, surface_started: true, guard }
    }
}

impl Teardown {
    /// Whether the standard error stream is still held back.
    pub closed spec fn holds_stderr(&self) -> bool {
        self.stderr_held
    }

    /// Whether the surface is still to be shut down.
    pub closed spec fn surface_started(&self) -> bool {
        self.surface_started
    }

    /// What is still to be released before the guard, in the order of
    /// release: the standard error stream, then the surface.
    pub open spec fn pending(&self) -> Seq<Request> {
        let stderr = if self.holds_stderr() {
            seq![Request::ReleaseStderr]
        } else {
            Seq::<Request>::empty()
        };
        let surface = if self.surface_started() {
            seq![Request::Shutdown]
        } else {
            Seq::<Request>::empty()
        };
        stderr + surface
    }

    /// The flag after one step of the teardown: as it was while anything is
    /// still to be released, and clear once nothing is.
    pub open spec fn flag_after_next(&self, flag: RunningFlag) -> RunningFlag {
        if self.pending().len() > 0 {
            flag
        } else {
            flag.after_release()
        }
    }

    /// Takes one step of the teardown.
    ///
    /// While anything is to be released, the step hands out the request for
    /// the first of it, with the teardown that is left, and leaves the flag
    /// alone. When nothing is left, the step gives the guard back, which
    /// clears the flag, and returns `None`.
    pub fn next(self, flag: &mut RunningFlag) -> (step: Option<(Request, Teardown)>)
        ensures
            *final(flag) == self.flag_after_next(*old(flag)),
            match step {
                Some((request, rest)) => {
                    &&& self.pending().len() > 0
                    &&& request == self.pending()[0]
                    &&& rest.pending() == self.pending().drop_first()
                },
                None => self.pending().len() == 0 && !final(flag).is_running(),
            },
    {
        let Teardown { stderr_held, surface_started, guard } = self;
        if stderr_held {
            let rest = Teardown { stderr_held: false, surface_started, guard };
            assert(rest.pending() =~= self.pending().drop_first());
            Some((Request::ReleaseStderr, rest))
        } else if surface_started {
            let rest = Teardown { stderr_held: false, surface_started: false, guard };
            assert(rest.pending() =~= self.pending().drop_first());
            Some((Request::Shutdown, rest))
        } else {
            release(flag, guard);
            None
        }
    }
}

/// One session at a time.
///
/// Whatever the flag was, after a call of [`RustBox::init`] it admits no
/// session: while the session that began is alive, every other call fails
/// with `AlreadyOpen`, and such a call leaves the flag as it was. No step
/// of a teardown clears the flag but the last, and after the last the flag
/// admits a session again.
pub proof fn lemma_one_session_at_a_time(flag: RunningFlag, teardown: Teardown)
    ensures
        !RustBox::admits(flag.after_run()),
        !RustBox::admits(flag) ==> flag.after_run() == flag,
        !RustBox::admits(flag) && teardown.pending().len() > 0 ==> !RustBox::admits(
            teardown.flag_after_next(flag),
        ),
        teardown.pending().len() == 0 ==> RustBox::admits(teardown.flag_after_next(flag)),
{
    crate::running::lemma_one_guard_at_a_time(flag);
}

/// The guard goes last.
///
/// A teardown releases the standard error stream first, if the session
/// held it, then shuts the surface down, if it had started, and nothing
/// else. While the flag is set, a step that hands out either request leaves
/// it set: the flag is clear only when both are done.
pub proof fn lemma_guard_released_last(flag: RunningFlag, teardown: Teardown)
    requires
        flag.is_running(),
    ensures
        teardown.holds_stderr() ==> teardown.pending()[0] == Request::ReleaseStderr,
        teardown.surface_started() ==> teardown.pending().last() == Request::Shutdown,
        teardown.holds_stderr() && teardown.surface_started() ==> teardown.pending() == seq![
            Request::ReleaseStderr,
            Request::Shutdown,
        ],
        teardown.pending().len() == (if teardown.holds_stderr() {
            1nat
        } else {
            0nat
        }) + (if teardown.surface_started() {
            1nat
        } else {
            0nat
        }),
        teardown.flag_after_next(flag).is_running() <==> teardown.holds_stderr()
            || teardown.surface_started(),
{
    crate::running::lemma_one_guard_at_a_time(flag);
    if teardown.holds_stderr() && teardown.surface_started() {
        assert(teardown.pending() =~= seq![Request::ReleaseStderr, Request::Shutdown]);
    }
}

} // verus!
