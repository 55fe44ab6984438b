use prayterm::{Attribute, Call, Color, CursorStyle, IoError, PrayTerm, Rgb};

/// Plays the terminal driver: performs the calls that the session hands out,
/// in order, and fails the call at place `fail_at`, if any.
fn drive(tm: &mut PrayTerm, log: &mut Vec<Call>, fail_at: Option<usize>) -> Result<(), IoError> {
    let mut last = Ok(());
    let mut made = 0;
    loop {
        match tm.step(last) {
            Ok(Some(call)) => {
                log.push(call);
                last = if fail_at == Some(made) { Err(IoError) } else { Ok(()) };
                made += 1;
            }
            Ok(None) => return Ok(()),
            Err(e) => return Err(e),
        }
    }
}

/// The terminal modes as a driver that obeys every call would leave them.
#[derive(Clone, Copy, Debug, PartialEq)]
struct Screen {
    raw: bool,
    alternate: bool,
    mouse: bool,
    hidden: bool,
}

fn perform(screen: &mut Screen, calls: &[Call]) {
    for call in calls {
        match call {
            Call::EnableRawMode => screen.raw = true,
            Call::DisableRawMode => screen.raw = false,
            Call::EnterAlternateScreen => screen.alternate = true,
            Call::LeaveAlternateScreen => screen.alternate = false,
            Call::EnableMouseCapture => screen.mouse = true,
            Call::DisableMouseCapture => screen.mouse = false,
            Call::Hide => screen.hidden = true,
            Call::Show => screen.hidden = false,
            _ => {}
        }
    }
}

fn place(log: &[Call], call: &Call) -> usize {
    log.iter().position(|c| c == call).unwrap()
}

#[test]
fn test_a() {
    let s = String::from_utf8("ABC".into()).expect("utf8");
    let mut log = Vec::new();
    let mut tm = PrayTerm::new(2, 80, 50);
    drive(&mut tm, &mut log, None).expect("construct");
    tm.begin();
    drive(&mut tm, &mut log, None).expect("begin");
    tm.wr(0, 48, 3, Color::Blue, Color::Yellow, &s);
    drive(&mut tm, &mut log, None).expect("wr");
    tm.wr(0, 49, 3, Rgb(240, 192, 32), Rgb(240, 32, 192), &s);
    drive(&mut tm, &mut log, None).expect("wr");
    tm.fin();
    drive(&mut tm, &mut log, None).expect("fin");
    assert_eq!(tm.w, 80);
    assert_eq!(tm.h, 50);
    assert_eq!(
        log,
        vec![
            Call::EnableRawMode,
            Call::EnableMouseCapture,
            Call::Flush,
            Call::SetCursorStyle(CursorStyle::DefaultUserShape),
            Call::Hide,
            Call::ClearAll,
            Call::Flush,
            Call::SetAttribute(Attribute::Bold),
            Call::SetAttribute(Attribute::Italic),
            Call::MoveTo(0, 48),
            Call::SetBackgroundColor(Color::Blue),
            Call::SetForegroundColor(Color::Yellow),
            Call::Print(String::from("ABC")),
            Call::ResetColor,
            Call::Flush,
            Call::SetAttribute(Attribute::Bold),
            Call::SetAttribute(Attribute::Italic),
            Call::MoveTo(0, 49),
            Call::SetBackgroundColor(Color::Rgb { r: 240, g: 192, b: 32 }),
            Call::SetForegroundColor(Color::Rgb { r: 240, g: 32, b: 192 }),
            Call::Print(String::from("ABC")),
            Call::ResetColor,
            Call::Flush,
            Call::SetCursorStyle(CursorStyle::BlinkingUnderScore),
            Call::Show,
            Call::Flush,
            Call::DisableMouseCapture,
            Call::Flush,
            Call::DisableRawMode,
        ]
    );
}

#[test]
fn new_keeps_flags_and_size() {
    let tm = PrayTerm::new(6, 132, 43);
    assert_eq!(tm.k, 6);
    assert_eq!(tm.w, 132);
    assert_eq!(tm.h, 43);
}

#[test]
fn new_with_no_flags_only_enters_raw_mode() {
    let tm = PrayTerm::new(0, 80, 24);
    assert_eq!(tm.so, vec![Call::EnableRawMode]);
}

#[test]
fn new_with_flag_one_enters_the_alternate_screen() {
    let tm = PrayTerm::new(1, 80, 24);
    assert_eq!(tm.so, vec![Call::EnableRawMode, Call::EnterAlternateScreen, Call::Flush]);
}

#[test]
fn new_with_flag_two_captures_the_mouse() {
    let tm = PrayTerm::new(2, 80, 24);
    assert_eq!(tm.so, vec![Call::EnableRawMode, Call::EnableMouseCapture, Call::Flush]);
}

#[test]
fn new_with_flag_four_does_both() {
    let tm = PrayTerm::new(4, 80, 24);
    assert_eq!(
        tm.so,
        vec![
            Call::EnableRawMode,
            Call::EnterAlternateScreen,
            Call::Flush,
            Call::EnableMouseCapture,
            Call::Flush,
        ]
    );
}

#[test]
fn new_ignores_flags_above_bit_two() {
    for k in 0..=u16::MAX {
        assert_eq!(PrayTerm::new(k, 80, 24).so, PrayTerm::new(k & 7, 80, 24).so);
    }
    assert_eq!(PrayTerm::new(0xfff8, 80, 24).so, vec![Call::EnableRawMode]);
}

#[test]
fn begin_sets_shape_hides_cursor_clears_and_flushes() {
    let mut tm = PrayTerm::new(0, 80, 24);
    tm.so.clear();
    tm.begin();
    assert_eq!(
        tm.so,
        vec![
            Call::SetCursorStyle(CursorStyle::DefaultUserShape),
            Call::Hide,
            Call::ClearAll,
            Call::Flush,
        ]
    );
}

#[test]
fn fin_with_no_flags_restores_cursor_and_leaves_raw_mode() {
    let mut tm = PrayTerm::new(0, 80, 24);
    tm.so.clear();
    tm.fin();
    assert_eq!(
        tm.so,
        vec![
            Call::SetCursorStyle(CursorStyle::BlinkingUnderScore),
            Call::Show,
            Call::Flush,
            Call::DisableRawMode,
        ]
    );
}

#[test]
fn fin_undoes_mouse_then_screen_then_raw_mode() {
    let mut tm = PrayTerm::new(6, 80, 24);
    tm.so.clear();
    tm.fin();
    assert_eq!(
        tm.so,
        vec![
            Call::SetCursorStyle(CursorStyle::BlinkingUnderScore),
            Call::Show,
            Call::Flush,
            Call::DisableMouseCapture,
            Call::Flush,
            Call::LeaveAlternateScreen,
            Call::Flush,
            Call::DisableRawMode,
        ]
    );
}

#[test]
fn fin_goes_by_the_flags_given_to_new() {
    let mut tm = PrayTerm::new(1, 80, 24);
    tm.so.clear();
    tm.fin();
    assert_eq!(
        tm.so,
        vec![
            Call::SetCursorStyle(CursorStyle::BlinkingUnderScore),
            Call::Show,
            Call::Flush,
            Call::LeaveAlternateScreen,
            Call::Flush,
            Call::DisableRawMode,
        ]
    );
    assert_eq!(tm.k, 1);
}

#[test]
fn new_then_fin_restores_raw_mode_for_every_flag() {
    for k in 0..=u16::MAX {
        let before = Screen { raw: false, alternate: false, mouse: false, hidden: false };
        let mut screen = before;
        let mut log = Vec::new();
        let mut tm = PrayTerm::new(k, 80, 24);
        drive(&mut tm, &mut log, None).unwrap();
        perform(&mut screen, &log);
        assert!(screen.raw);
        assert_eq!(screen.alternate, k & 5 != 0);
        assert_eq!(screen.mouse, k & 6 != 0);
        log.clear();
        tm.fin();
        drive(&mut tm, &mut log, None).unwrap();
        perform(&mut screen, &log);
        assert_eq!(screen, before);
    }
}

#[test]
fn every_mode_entered_is_left_last_first() {
    for k in 0..8u16 {
        let mut tm = PrayTerm::new(k, 80, 24);
        tm.begin();
        tm.fin();
        let mut entered = Vec::new();
        for call in &tm.so {
            match call {
                Call::EnableRawMode => entered.push("raw"),
                Call::EnterAlternateScreen => entered.push("screen"),
                Call::EnableMouseCapture => entered.push("mouse"),
                Call::DisableRawMode => assert_eq!(entered.pop(), Some("raw")),
                Call::LeaveAlternateScreen => assert_eq!(entered.pop(), Some("screen")),
                Call::DisableMouseCapture => assert_eq!(entered.pop(), Some("mouse")),
                _ => {}
            }
        }
        assert!(entered.is_empty());
    }
}

#[test]
fn style_queues_one_attribute_and_no_flush() {
    let mut tm = PrayTerm::new(0, 80, 24);
    tm.so.clear();
    tm.style(Attribute::Underlined);
    assert_eq!(tm.so, vec![Call::SetAttribute(Attribute::Underlined)]);
    tm.style(Attribute::Reverse);
    assert_eq!(
        tm.so,
        vec![Call::SetAttribute(Attribute::Underlined), Call::SetAttribute(Attribute::Reverse)]
    );
}

#[test]
fn wr_queues_position_colors_text_reset_and_flush() {
    let mut tm = PrayTerm::new(0, 80, 24);
    tm.so.clear();
    tm.wr(3, 7, 2, Color::DarkBlue, Rgb(1, 2, 3), &String::from("hi"));
    assert_eq!(
        tm.so,
        vec![
            Call::SetAttribute(Attribute::Bold),
            Call::SetAttribute(Attribute::Italic),
            Call::MoveTo(3, 7),
            Call::SetBackgroundColor(Color::DarkBlue),
            Call::SetForegroundColor(Color::Rgb { r: 1, g: 2, b: 3 }),
            Call::Print(String::from("hi")),
            Call::ResetColor,
            Call::Flush,
        ]
    );
}

#[test]
fn wr_with_bit_one_clear_queues_italic_alone() {
    for st in [0u16, 1] {
        let mut tm = PrayTerm::new(0, 80, 24);
        tm.so.clear();
        tm.wr(0, 0, st, Color::Black, Color::White, &String::new());
        assert_eq!(tm.so[0], Call::SetAttribute(Attribute::Italic));
        assert_eq!(tm.so[1], Call::MoveTo(0, 0));
        assert_eq!(tm.so.len(), 7);
    }
}

#[test]
fn wr_with_bit_one_set_queues_bold_then_italic() {
    for st in [2u16, 3] {
        let mut tm = PrayTerm::new(0, 80, 24);
        tm.so.clear();
        tm.wr(0, 0, st, Color::Black, Color::White, &String::new());
        assert_eq!(tm.so[0], Call::SetAttribute(Attribute::Bold));
        assert_eq!(tm.so[1], Call::SetAttribute(Attribute::Italic));
        assert_eq!(tm.so[2], Call::MoveTo(0, 0));
        assert_eq!(tm.so.len(), 8);
    }
}

#[test]
fn wr_ignores_style_bits_above_bit_one() {
    let msg = String::from("x");
    for st in 0..=u16::MAX {
        let mut all = PrayTerm::new(0, 80, 24);
        let mut low = PrayTerm::new(0, 80, 24);
        all.wr(1, 2, st, Color::Red, Color::Green, &msg);
        low.wr(1, 2, st & 3, Color::Red, Color::Green, &msg);
        assert_eq!(all.so, low.so);
    }
}

#[test]
fn wr_twice_queues_the_same_calls_twice() {
    let msg = String::from("again");
    let mut once = PrayTerm::new(0, 80, 24);
    once.so.clear();
    once.wr(5, 6, 0xfffe, Rgb(9, 8, 7), Color::Grey, &msg);
    let mut twice = PrayTerm::new(0, 80, 24);
    twice.so.clear();
    twice.wr(5, 6, 0xfffe, Rgb(9, 8, 7), Color::Grey, &msg);
    twice.wr(5, 6, 0xfffe, Rgb(9, 8, 7), Color::Grey, &msg);
    let mut expected = once.so.clone();
    expected.extend(once.so.clone());
    assert_eq!(twice.so, expected);
    assert_eq!(twice.so.len(), 16);
}

#[test]
fn wr_passes_coordinates_beyond_the_screen_through() {
    let mut tm = PrayTerm::new(0, 80, 24);
    tm.so.clear();
    tm.wr(u16::MAX, 24, 0, Color::Reset, Color::AnsiValue(200), &String::from("far"));
    assert_eq!(tm.so[1], Call::MoveTo(u16::MAX, 24));
    assert_eq!(tm.so[3], Call::SetForegroundColor(Color::AnsiValue(200)));
    assert_eq!(tm.w, 80);
    assert_eq!(tm.h, 24);
}

#[test]
fn operations_leave_flags_and_size_alone() {
    let mut tm = PrayTerm::new(5, 100, 30);
    tm.begin();
    tm.style(Attribute::Dim);
    tm.wr(0, 0, 3, Color::Black, Color::White, &String::from("z"));
    tm.fin();
    let mut log = Vec::new();
    drive(&mut tm, &mut log, None).unwrap();
    assert_eq!((tm.k, tm.w, tm.h), (5, 100, 30));
}

#[test]
fn step_hands_out_calls_in_queue_order_then_none() {
    let mut tm = PrayTerm::new(6, 80, 24);
    assert_eq!(tm.step(Ok(())), Ok(Some(Call::EnableRawMode)));
    assert_eq!(tm.step(Ok(())), Ok(Some(Call::EnterAlternateScreen)));
    assert_eq!(tm.step(Ok(())), Ok(Some(Call::Flush)));
    assert_eq!(tm.step(Ok(())), Ok(Some(Call::EnableMouseCapture)));
    assert_eq!(tm.step(Ok(())), Ok(Some(Call::Flush)));
    assert_eq!(tm.step(Ok(())), Ok(None));
    assert_eq!(tm.step(Ok(())), Ok(None));
    assert!(tm.so.is_empty());
}

#[test]
fn step_after_a_failure_gives_the_error_and_drops_the_rest() {
    let mut tm = PrayTerm::new(6, 80, 24);
    assert_eq!(tm.step(Ok(())), Ok(Some(Call::EnableRawMode)));
    assert_eq!(tm.step(Ok(())), Ok(Some(Call::EnterAlternateScreen)));
    assert_eq!(tm.step(Err(IoError)), Err(IoError));
    assert!(tm.so.is_empty());
    assert_eq!(tm.step(Ok(())), Ok(None));
}

#[test]
fn failed_construction_is_not_rolled_back() {
    let mut log = Vec::new();
    let mut tm = PrayTerm::new(6, 80, 24);
    assert_eq!(drive(&mut tm, &mut log, Some(1)), Err(IoError));
    assert_eq!(log, vec![Call::EnableRawMode, Call::EnterAlternateScreen]);
    let mut screen = Screen { raw: false, alternate: false, mouse: false, hidden: false };
    perform(&mut screen, &log[..1]);
    assert!(screen.raw);
    assert!(!screen.mouse);
}

#[test]
fn failed_raw_mode_switch_stops_construction_at_once() {
    let mut log = Vec::new();
    let mut tm = PrayTerm::new(7, 80, 24);
    assert_eq!(drive(&mut tm, &mut log, Some(0)), Err(IoError));
    assert_eq!(log, vec![Call::EnableRawMode]);
}

#[test]
fn failed_write_cuts_the_write_short() {
    let mut tm = PrayTerm::new(0, 80, 24);
    tm.so.clear();
    tm.wr(0, 0, 3, Color::Black, Color::White, &String::from("OK"));
    let mut log = Vec::new();
    assert_eq!(drive(&mut tm, &mut log, Some(3)), Err(IoError));
    assert_eq!(
        log,
        vec![
            Call::SetAttribute(Attribute::Bold),
            Call::SetAttribute(Attribute::Italic),
            Call::MoveTo(0, 0),
            Call::SetBackgroundColor(Color::Black),
        ]
    );
    log.clear();
    assert_eq!(drive(&mut tm, &mut log, None), Ok(()));
    assert!(log.is_empty());
}

#[test]
fn a_failure_at_any_place_ends_the_run_there() {
    let mut whole = PrayTerm::new(6, 80, 24);
    whole.begin();
    whole.fin();
    let calls = whole.so.clone();
    for i in 0..calls.len() {
        let mut tm = PrayTerm::new(6, 80, 24);
        tm.begin();
        tm.fin();
        let mut log = Vec::new();
        assert_eq!(drive(&mut tm, &mut log, Some(i)), Err(IoError));
        assert_eq!(log, calls[..=i].to_vec());
    }
    let mut tm = PrayTerm::new(6, 80, 24);
    tm.begin();
    tm.fin();
    let mut log = Vec::new();
    assert_eq!(drive(&mut tm, &mut log, Some(calls.len())), Ok(()));
    assert_eq!(log, calls);
}

#[test]
fn session_with_both_modes_runs_its_calls_in_order() {
    let mut log = Vec::new();
    let mut tm = PrayTerm::new(6, 80, 24);
    assert_eq!(drive(&mut tm, &mut log, None), Ok(()));
    tm.begin();
    assert_eq!(drive(&mut tm, &mut log, None), Ok(()));
    tm.wr(0, 0, 0, Color::Black, Color::White, &String::from("OK"));
    assert_eq!(drive(&mut tm, &mut log, None), Ok(()));
    tm.fin();
    assert_eq!(drive(&mut tm, &mut log, None), Ok(()));
    assert_eq!(
        log,
        vec![
            Call::EnableRawMode,
            Call::EnterAlternateScreen,
            Call::Flush,
            Call::EnableMouseCapture,
            Call::Flush,
            Call::SetCursorStyle(CursorStyle::DefaultUserShape),
            Call::Hide,
            Call::ClearAll,
            Call::Flush,
            Call::SetAttribute(Attribute::Italic),
            Call::MoveTo(0, 0),
            Call::SetBackgroundColor(Color::Black),
            Call::SetForegroundColor(Color::White),
            Call::Print(String::from("OK")),
            Call::ResetColor,
            Call::Flush,
            Call::SetCursorStyle(CursorStyle::BlinkingUnderScore),
            Call::Show,
            Call::Flush,
            Call::DisableMouseCapture,
            Call::Flush,
            Call::LeaveAlternateScreen,
            Call::Flush,
            Call::DisableRawMode,
        ]
    );
    let order = [
        Call::EnterAlternateScreen,
        Call::EnableMouseCapture,
        Call::ClearAll,
        Call::MoveTo(0, 0),
        Call::SetBackgroundColor(Color::Black),
        Call::SetForegroundColor(Color::White),
        Call::Print(String::from("OK")),
        Call::ResetColor,
        Call::Show,
        Call::DisableMouseCapture,
        Call::LeaveAlternateScreen,
        Call::DisableRawMode,
    ];
    for pair in order.windows(2) {
        assert!(place(&log, &pair[0]) < place(&log, &pair[1]));
    }
    assert!(place(&log, &Call::Hide) < place(&log, &Call::MoveTo(0, 0)));
    assert!(place(&log, &Call::EnterAlternateScreen) < place(&log, &Call::Hide));
}

#[test]
fn call_clone_is_equal_to_the_call() {
    let calls = [
        Call::Print(String::from("copy")),
        Call::MoveTo(4, 5),
        Call::SetBackgroundColor(Color::Rgb { r: 1, g: 2, b: 3 }),
        Call::SetAttribute(Attribute::Fraktur),
        Call::SetCursorStyle(CursorStyle::SteadyBar),
        Call::Flush,
    ];
    for call in &calls {
        assert_eq!(&call.clone(), call);
    }
}
