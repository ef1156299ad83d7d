use rustbox::{
    release, run, running, Color, Event, EventError, InitError, InitOptions, InputMode, Key,
    RawEvent, Request, RunningFlag, RustBox, Startup, Style, Teardown, RB_BOLD, RB_REVERSE,
};
use std::io;

fn options(input_mode: InputMode, buffer_stderr: bool) -> InitOptions {
    InitOptions { input_mode, buffer_stderr }
}

/// Brings a session up on a free flag, answering every request with
/// success, and returns the handle with the requests that were made.
fn open(flag: &mut RunningFlag, opts: InitOptions) -> (RustBox, Vec<Request>) {
    let mut asked = Vec::new();
    let mut startup: Startup = RustBox::init(opts, flag).expect("the flag is free");
    if startup.request() == Request::HoldStderr {
        asked.push(Request::HoldStderr);
        startup = startup.stderr_answered(Ok(()), flag).expect("the stream is held");
    }
    asked.push(startup.request());
    let (handle, first) = startup.surface_answered(0).ok().expect("the surface started");
    if let Some(request) = first {
        asked.push(request);
    }
    (handle, asked)
}

/// Runs a teardown to its end and returns the requests in the order in
/// which they came, each with the state of the flag when it came.
fn wind_down(flag: &mut RunningFlag, teardown: Teardown) -> Vec<(Request, bool)> {
    let mut asked = Vec::new();
    let mut left = teardown;
    loop {
        match left.next(flag) {
            Some((request, rest)) => {
                asked.push((request, running(flag)));
                left = rest;
            }
            None => return asked,
        }
    }
}

#[test]
fn default_options() {
    let opts = InitOptions::default();
    assert_eq!(opts.input_mode, InputMode::Current);
    assert!(!opts.buffer_stderr);
}

#[test]
fn input_mode_codes() {
    assert_eq!(InputMode::Current.code(), 0);
    assert_eq!(InputMode::Esc.code(), 1);
    assert_eq!(InputMode::Alt.code(), 2);
    assert_eq!(InputMode::EscMouse.code(), 5);
    assert_eq!(InputMode::AltMouse.code(), 6);
}

#[test]
fn new_flag_is_not_running() {
    assert!(!running(&RunningFlag::new()));
}

#[test]
fn one_guard_at_a_time() {
    let mut flag = RunningFlag::new();
    let guard = run(&mut flag).expect("the flag is free");
    assert!(running(&flag));
    assert!(run(&mut flag).is_none());
    assert!(running(&flag));
    assert!(run(&mut flag).is_none());
    release(&mut flag, guard);
    assert!(!running(&flag));
    let again = run(&mut flag);
    assert!(again.is_some());
    assert!(running(&flag));
}

#[test]
fn second_init_fails_while_the_first_is_alive() {
    let mut flag = RunningFlag::new();
    let (handle, _) = open(&mut flag, InitOptions::default());
    assert!(running(&flag));
    for _ in 0..3 {
        let second = RustBox::init(InitOptions::default(), &mut flag);
        assert!(matches!(second, Err(InitError::AlreadyOpen)));
        assert!(running(&flag));
    }
    wind_down(&mut flag, handle.close());
    assert!(!running(&flag));
    let third = RustBox::init(InitOptions::default(), &mut flag);
    assert!(third.is_ok());
    assert!(running(&flag));
}

#[test]
fn init_fails_while_another_is_still_starting() {
    let mut flag = RunningFlag::new();
    let startup = RustBox::init(options(InputMode::Esc, true), &mut flag).expect("free");
    let second = RustBox::init(InitOptions::default(), &mut flag);
    assert!(matches!(second, Err(InitError::AlreadyOpen)));
    assert_eq!(startup.request(), Request::HoldStderr);
}

#[test]
fn plain_session_asks_only_for_the_surface() {
    let mut flag = RunningFlag::new();
    let (_, asked) = open(&mut flag, InitOptions::default());
    assert_eq!(asked, vec![Request::Init]);
}

#[test]
fn session_selects_the_input_mode_after_the_start() {
    let mut flag = RunningFlag::new();
    let (handle, asked) = open(&mut flag, options(InputMode::EscMouse, false));
    assert_eq!(asked, vec![Request::Init, Request::SelectInputMode(5)]);
    wind_down(&mut flag, handle.close());
    let (_, asked) = open(&mut flag, options(InputMode::Alt, true));
    assert_eq!(asked, vec![Request::HoldStderr, Request::Init, Request::SelectInputMode(2)]);
}

#[test]
fn stderr_failure_gives_the_guard_back() {
    let mut flag = RunningFlag::new();
    let startup = RustBox::init(options(InputMode::Esc, true), &mut flag).expect("free");
    assert_eq!(startup.request(), Request::HoldStderr);
    let failure = io::Error::new(io::ErrorKind::PermissionDenied, "no pipe");
    match startup.stderr_answered(Err(failure), &mut flag) {
        Err(InitError::BufferStderrFailed(cause)) => {
            assert_eq!(cause.kind(), io::ErrorKind::PermissionDenied);
            assert_eq!(format!("{}", cause), "no pipe");
        }
        other => panic!("unexpected {:?}", other),
    }
    assert!(!running(&flag));
    assert!(RustBox::init(InitOptions::default(), &mut flag).is_ok());
}

#[test]
fn surface_failure_maps_the_code() {
    let cases: [(i32, fn(&InitError) -> bool); 6] = [
        (-1, |e| matches!(e, InitError::UnsupportedTerminal)),
        (-2, |e| matches!(e, InitError::FailedToOpenTTy)),
        (-3, |e| matches!(e, InitError::PipeTrapError)),
        (-4, |e| matches!(e, InitError::Unknown(-4))),
        (9, |e| matches!(e, InitError::Unknown(9))),
        (i32::MIN, |e| matches!(e, InitError::Unknown(n) if *n == i32::MIN as isize)),
    ];
    for (code, expected) in cases.iter() {
        let mut flag = RunningFlag::new();
        let startup = RustBox::init(InitOptions::default(), &mut flag).expect("free");
        match startup.surface_answered(*code) {
            Err((error, teardown)) => {
                assert!(expected(&error), "code {} gave {:?}", code, error);
                assert!(running(&flag));
                assert_eq!(wind_down(&mut flag, teardown), vec![]);
                assert!(!running(&flag));
            }
            Ok(_) => panic!("code {} began a session", code),
        }
    }
}

#[test]
fn surface_failure_releases_stderr_before_the_guard() {
    let mut flag = RunningFlag::new();
    let startup = RustBox::init(options(InputMode::Current, true), &mut flag).expect("free");
    let startup = startup.stderr_answered(Ok(()), &mut flag).expect("held");
    assert_eq!(startup.request(), Request::Init);
    match startup.surface_answered(-2) {
        Err((error, teardown)) => {
            assert!(matches!(error, InitError::FailedToOpenTTy));
            assert_eq!(wind_down(&mut flag, teardown), vec![(Request::ReleaseStderr, true)]);
            assert!(!running(&flag));
        }
        Ok(_) => panic!("a failed start began a session"),
    }
}

#[test]
fn teardown_releases_stderr_then_surface_then_guard() {
    let mut flag = RunningFlag::new();
    let (handle, _) = open(&mut flag, options(InputMode::Current, true));
    let asked = wind_down(&mut flag, handle.close());
    assert_eq!(asked, vec![(Request::ReleaseStderr, true), (Request::Shutdown, true)]);
    assert!(!running(&flag));
}

#[test]
fn teardown_without_stderr_shuts_the_surface_down() {
    let mut flag = RunningFlag::new();
    let (handle, _) = open(&mut flag, InitOptions::default());
    let asked = wind_down(&mut flag, handle.close());
    assert_eq!(asked, vec![(Request::Shutdown, true)]);
    assert!(!running(&flag));
}

#[test]
fn stream_held_unasked_is_released_all_the_same() {
    let mut flag = RunningFlag::new();
    let startup = RustBox::init(InitOptions::default(), &mut flag).expect("free");
    assert_eq!(startup.request(), Request::Init);
    let startup = startup.stderr_answered(Ok(()), &mut flag).expect("held");
    let (handle, first) = startup.surface_answered(0).ok().expect("started");
    assert_eq!(first, None);
    let asked = wind_down(&mut flag, handle.close());
    assert_eq!(asked, vec![(Request::ReleaseStderr, true), (Request::Shutdown, true)]);
}

#[test]
fn screen_requests() {
    let mut flag = RunningFlag::new();
    let (handle, _) = open(&mut flag, InitOptions::default());
    assert_eq!(handle.clear(), Request::Clear);
    assert_eq!(handle.present(), Request::Present);
    assert_eq!(handle.set_cursor(3, 9), Request::SetCursor(3, 9));
    assert_eq!(handle.set_cursor(-1, -1), Request::SetCursor(-1, -1));
    assert_eq!(handle.set_input_mode(InputMode::AltMouse), Request::SelectInputMode(6));
    assert_eq!(handle.set_input_mode(InputMode::Current), Request::SelectInputMode(0));
    assert_eq!(
        handle.change_cell(1, 2, 'x' as u32, 0x0102, 0x0004),
        Request::ChangeCell(1, 2, 120, 0x0102, 0x0004)
    );
}

#[test]
fn width_and_height_take_the_reported_number() {
    let mut flag = RunningFlag::new();
    let (handle, _) = open(&mut flag, InitOptions::default());
    assert_eq!(handle.width(80), 80);
    assert_eq!(handle.height(24), 24);
    assert_eq!(handle.width(0), 0);
    assert_eq!(handle.width(i32::MAX), i32::MAX as usize);
    assert_eq!(handle.width(-1), usize::MAX);
    assert_eq!(handle.height(-1), usize::MAX);
}

#[test]
fn large_coordinates_keep_their_low_bits() {
    let mut flag = RunningFlag::new();
    let (handle, _) = open(&mut flag, InitOptions::default());
    let wide = (1u64 << 32) as usize;
    if wide != 0 {
        assert_eq!(handle.change_cell(wide + 5, wide + 6, 0, 0, 0), Request::ChangeCell(5, 6, 0, 0, 0));
        assert_eq!(handle.set_cursor(wide as isize + 1, 2), Request::SetCursor(1, 2));
    }
    assert_eq!(
        handle.change_cell(0x8000_0000, 0xFFFF_FFFF, 0, 0, 0),
        Request::ChangeCell(i32::MIN, -1, 0, 0, 0)
    );
}

#[test]
fn print_char_composes_the_cell() {
    let mut flag = RunningFlag::new();
    let (handle, _) = open(&mut flag, InitOptions::default());
    let bold = Style::from_bits_truncate(RB_BOLD);
    assert_eq!(
        handle.print_char(4, 5, bold, Color::Green, Color::Black, 'A'),
        Request::ChangeCell(4, 5, 65, 0x0103, 0x0001)
    );
    assert_eq!(
        handle.print_char(0, 0, Style::empty(), Color::Default, Color::White, '\u{263A}'),
        Request::ChangeCell(0, 0, 0x263A, 0x0000, 0x0008)
    );
}

#[test]
fn print_char_ignores_color_bits_of_the_style() {
    let mut flag = RunningFlag::new();
    let (handle, _) = open(&mut flag, InitOptions::default());
    let style = Style::from_bits_truncate(RB_REVERSE | 0x000F);
    assert_eq!(
        handle.print_char(1, 1, style, Color::Red, Color::Blue, 'k'),
        Request::ChangeCell(1, 1, 107, 0x0402, 0x0005)
    );
}

#[test]
fn print_lays_the_characters_out_in_a_row() {
    let mut flag = RunningFlag::new();
    let (handle, _) = open(&mut flag, InitOptions::default());
    let bold = Style::from_bits_truncate(RB_BOLD);
    let requests = handle.print(10, 3, bold, Color::Yellow, Color::Blue, "h\u{e9}!");
    assert_eq!(
        requests,
        vec![
            Request::ChangeCell(10, 3, 104, 0x0104, 0x0005),
            Request::ChangeCell(11, 3, 0xE9, 0x0104, 0x0005),
            Request::ChangeCell(12, 3, 33, 0x0104, 0x0005),
        ]
    );
}

#[test]
fn print_of_nothing_asks_for_nothing() {
    let mut flag = RunningFlag::new();
    let (handle, _) = open(&mut flag, InitOptions::default());
    assert_eq!(handle.print(usize::MAX, 0, Style::empty(), Color::Red, Color::Red, ""), vec![]);
}

#[test]
fn print_up_to_the_last_column() {
    let mut flag = RunningFlag::new();
    let (handle, _) = open(&mut flag, InitOptions::default());
    let requests = handle.print(usize::MAX - 1, 0, Style::empty(), Color::Red, Color::Cyan, "ab");
    assert_eq!(
        requests,
        vec![Request::ChangeCell(-2, 0, 97, 0x0002, 0x0007), Request::ChangeCell(-1, 0, 98, 0x0002, 0x0007)]
    );
}

#[test]
fn peek_timeout_in_milliseconds() {
    let mut flag = RunningFlag::new();
    let (handle, _) = open(&mut flag, InitOptions::default());
    assert_eq!(handle.peek_timeout(0), 0);
    assert_eq!(handle.peek_timeout(250), 250);
    assert_eq!(handle.peek_timeout(-1), -1);
    assert_eq!(handle.peek_timeout(i32::MAX as i64), i32::MAX);
    assert_eq!(handle.peek_timeout(i32::MAX as i64 + 1), i32::MIN);
    assert_eq!(handle.peek_timeout((1i64 << 32) + 7), 7);
}

#[test]
fn handle_decodes_polled_and_peeked_events() {
    let mut flag = RunningFlag::new();
    let (handle, _) = open(&mut flag, InitOptions::default());
    let mut ev = RawEvent::nil();
    ev.key = 9;
    ev.w = 100;
    ev.h = 30;
    assert_eq!(handle.poll_event(1, &ev, false), Ok(Event::KeyEvent(Some(Key::Tab))));
    assert_eq!(handle.poll_event(1, &ev, true), Ok(Event::KeyEventRaw(0, 9, 0)));
    assert_eq!(handle.peek_event(0, &ev, false), Ok(Event::NoEvent));
    assert_eq!(handle.peek_event(2, &ev, false), Ok(Event::ResizeEvent(100, 30)));
    assert_eq!(handle.poll_event(-1, &ev, false), Err(EventError::TermboxError));
    assert_eq!(handle.peek_event(-5, &ev, false), Err(EventError::Unknown(-5)));
}
