//! What holds of a session whatever its flags, its writes and the driver's
//! answers: how it leaves the terminal's modes, what it leaves in the output
//! buffer, which style bits count, and what a failure cuts off.

use vstd::prelude::*;
use crate::color::Color;
use crate::driver::{
    after_all, lemma_after_all_concat, lemma_after_none, lemma_after_one, lemma_after_three,
    lemma_after_two, Attribute, Buffer, Call, CursorStyle, IoError, Mode, Modes, Nesting,
};
use crate::session::{
    begin_calls, fin_calls, new_calls, style_calls, uses_alternate_screen, uses_mouse_capture,
    wr_calls, Session,
};

verus! {

/// Opening a session switches raw mode on, and the alternate screen and
/// mouse capture where the flags ask for them. It switches nothing off.
pub proof fn lemma_modes_after_new(k: u16, before: Modes)
    ensures
        after_all(before, new_calls(k)) == (Modes {
            raw: true,
            alternate_screen: before.alternate_screen || uses_alternate_screen(k),
            mouse_capture: before.mouse_capture || uses_mouse_capture(k),
            cursor_hidden: before.cursor_hidden,
        }),
{
    let raw = seq![Call::EnableRawMode];
    let screen = if uses_alternate_screen(k) {
        seq![Call::EnterAlternateScreen, Call::Flush]
    } else {
        seq![]
    };
    let mouse = if uses_mouse_capture(k) {
        seq![Call::EnableMouseCapture, Call::Flush]
    } else {
        seq![]
    };
    lemma_after_all_concat(before, raw + screen, mouse);
    lemma_after_all_concat(before, raw, screen);
    lemma_after_one(before, Call::EnableRawMode);
    let m1 = after_all(before, raw);
    lemma_after_two(m1, Call::EnterAlternateScreen, Call::Flush);
    lemma_after_none(m1);
    let m2 = after_all(m1, screen);
    lemma_after_two(m2, Call::EnableMouseCapture, Call::Flush);
    lemma_after_none(m2);
}

/// Closing a session shows the cursor, switches raw mode off, and switches
/// the alternate screen and mouse capture off where the flags ask for them.
pub proof fn lemma_modes_after_fin(k: u16, before: Modes)
    ensures
        after_all(before, fin_calls(k)) == (Modes {
            raw: false,
            alternate_screen: before.alternate_screen && !uses_alternate_screen(k),
            mouse_capture: before.mouse_capture && !uses_mouse_capture(k),
            cursor_hidden: false,
        }),
{
    let cursor = seq![
        Call::SetCursorStyle(CursorStyle::BlinkingUnderScore),
        Call::Show,
        Call::Flush,
    ];
    let mouse = if uses_mouse_capture(k) {
        seq![Call::DisableMouseCapture, Call::Flush]
    } else {
        seq![]
    };
    let screen = if uses_alternate_screen(k) {
        seq![Call::LeaveAlternateScreen, Call::Flush]
    } else {
        seq![]
    };
    let raw = seq![Call::DisableRawMode];
    lemma_after_all_concat(before, cursor + mouse + screen, raw);
    lemma_after_all_concat(before, cursor + mouse, screen);
    lemma_after_all_concat(before, cursor, mouse);
    lemma_after_three(
        before,
        Call::SetCursorStyle(CursorStyle::BlinkingUnderScore),
        Call::Show,
        Call::Flush,
    );
    let m1 = after_all(before, cursor);
    lemma_after_two(m1, Call::DisableMouseCapture, Call::Flush);
    lemma_after_none(m1);
    let m2 = after_all(m1, mouse);
    lemma_after_two(m2, Call::LeaveAlternateScreen, Call::Flush);
    lemma_after_none(m2);
    let m3 = after_all(m2, screen);
    lemma_after_one(m3, Call::DisableRawMode);
}

/// Raw mode comes back as it was.
///
/// For every choice of flags, a session that is made and at once closed on a
/// terminal that was not in raw mode leaves the terminal out of raw mode,
/// once the driver has performed all of its calls. The same holds of the
/// alternate screen and of mouse capture, each if it was off before, and the
/// cursor is left shown.
pub proof fn lemma_new_then_fin_restores_raw_mode(k: u16, w: u16, h: u16, before: Modes)
    requires
        !before.raw,
    ensures
        after_all(before, Session::new(k, w, h).fin().so).raw == before.raw,
        !before.alternate_screen ==> !after_all(
            before,
            Session::new(k, w, h).fin().so,
        ).alternate_screen,
        !before.mouse_capture ==> !after_all(before, Session::new(k, w, h).fin().so).mouse_capture,
        !after_all(before, Session::new(k, w, h).fin().so).cursor_hidden,
{
    lemma_after_all_concat(before, new_calls(k), fin_calls(k));
    lemma_modes_after_new(k, before);
    lemma_modes_after_fin(k, after_all(before, new_calls(k)));
}

/// Closing always ends raw mode.
///
/// Whatever a session has queued before, once the driver has performed all of
/// it and the closing calls behind it, the terminal is out of raw mode and
/// the cursor is shown.
pub proof fn lemma_fin_ends_raw_mode(session: Session, before: Modes)
    ensures
        !after_all(before, session.fin().so).raw,
        !after_all(before, session.fin().so).cursor_hidden,
{
    lemma_after_all_concat(before, session.so, fin_calls(session.k));
    lemma_modes_after_fin(session.k, after_all(before, session.so));
}

/// What forces output.
///
/// Once the driver has performed the calls of `begin`, of `wr` or of `fin`,
/// nothing is left waiting in the output buffer, whatever was waiting there
/// before: each of them flushes behind its last write. The calls of `new` do
/// the same where the flags ask for a mode, and write nothing where they ask
/// for none.
pub proof fn lemma_operations_force_output(
    k: u16,
    x: u16,
    y: u16,
    st: u16,
    bg: Color,
    fg: Color,
    msg: String,
    before: Buffer,
)
    ensures
        after_all(before, begin_calls()).waiting == Seq::<Call>::empty(),
        after_all(before, wr_calls(x, y, st, bg, fg, msg)).waiting == Seq::<Call>::empty(),
        after_all(before, fin_calls(k)).waiting == Seq::<Call>::empty(),
        after_all(before, new_calls(k)).waiting == (if uses_alternate_screen(k)
            || uses_mouse_capture(k) {
            Seq::<Call>::empty()
        } else {
            before.waiting
        }),
{
    assert(begin_calls().last() == Call::Flush);
    assert(wr_calls(x, y, st, bg, fg, msg).last() == Call::Flush);
    let closing = fin_calls(k);
    assert(after_all(before, closing).waiting == Seq::<Call>::empty()) by {
        reveal_with_fuel(after_all, 2);
        assert(closing.last() == Call::DisableRawMode);
        assert(closing.drop_last().last() == Call::Flush);
    }
    let opening = new_calls(k);
    if uses_alternate_screen(k) || uses_mouse_capture(k) {
        assert(opening.last() == Call::Flush);
    } else {
        assert(opening =~= seq![Call::EnableRawMode]);
        lemma_after_one(before, Call::EnableRawMode);
    }
}

/// A style waits for a flush.
///
/// The call of `style` adds its attribute to what the session's earlier
/// calls have left waiting in the output buffer, and forces nothing out: the
/// attribute reaches the terminal with the next flush.
pub proof fn lemma_style_waits_for_a_flush(session: Session, s: Attribute, before: Buffer)
    ensures
        after_all(before, session.style(s).so).waiting == after_all(
            before,
            session.so,
        ).waiting.push(Call::SetAttribute(s)),
{
    lemma_after_all_concat(before, session.so, seq![Call::SetAttribute(s)]);
    lemma_after_one(after_all(before, session.so), Call::SetAttribute(s));
}

/// The modes that opening a session enters, in the order in which it enters
/// them.
pub open spec fn entered_by_new(k: u16) -> Seq<Mode> {
    seq![Mode::Raw] + (if uses_alternate_screen(k) {
        seq![Mode::AlternateScreen]
    } else {
        seq![]
    }) + (if uses_mouse_capture(k) {
        seq![Mode::MouseCapture]
    } else {
        seq![]
    })
}

/// Closing mirrors opening.
///
/// Opening a session enters raw mode, then the alternate screen, then mouse
/// capture, the last two where the flags ask for them. Closing it leaves
/// exactly those modes, each in its turn: the one entered last is left
/// first. After both, no mode is left entered.
pub proof fn lemma_fin_leaves_what_new_entered(k: u16, w: u16, h: u16)
    ensures
        after_all(Nesting::none(), new_calls(k)) == (Nesting {
            entered: entered_by_new(k),
            in_turn: true,
        }),
        after_all(Nesting::none(), Session::new(k, w, h).fin().so) == Nesting::none(),
{
    let start = Nesting::none();
    let screen_on = if uses_alternate_screen(k) {
        seq![Call::EnterAlternateScreen, Call::Flush]
    } else {
        seq![]
    };
    let mouse_on = if uses_mouse_capture(k) {
        seq![Call::EnableMouseCapture, Call::Flush]
    } else {
        seq![]
    };
    lemma_after_all_concat(start, seq![Call::EnableRawMode] + screen_on, mouse_on);
    lemma_after_all_concat(start, seq![Call::EnableRawMode], screen_on);
    lemma_after_one(start, Call::EnableRawMode);
    let n1 = after_all(start, seq![Call::EnableRawMode]);
    assert(n1.entered =~= seq![Mode::Raw]);
    lemma_after_two(n1, Call::EnterAlternateScreen, Call::Flush);
    lemma_after_none(n1);
    let n2 = after_all(n1, screen_on);
    lemma_after_two(n2, Call::EnableMouseCapture, Call::Flush);
    lemma_after_none(n2);
    let opened = after_all(n2, mouse_on);
    assert(opened.entered =~= entered_by_new(k));
    assert(opened.in_turn);

    let cursor = seq![
        Call::SetCursorStyle(CursorStyle::BlinkingUnderScore),
        Call::Show,
        Call::Flush,
    ];
    let mouse_off = if uses_mouse_capture(k) {
        seq![Call::DisableMouseCapture, Call::Flush]
    } else {
        seq![]
    };
    let screen_off = if uses_alternate_screen(k) {
        seq![Call::LeaveAlternateScreen, Call::Flush]
    } else {
        seq![]
    };
    lemma_after_all_concat(start, new_calls(k), fin_calls(k));
    lemma_after_all_concat(opened, cursor + mouse_off + screen_off, seq![Call::DisableRawMode]);
    lemma_after_all_concat(opened, cursor + mouse_off, screen_off);
    lemma_after_all_concat(opened, cursor, mouse_off);
    lemma_after_three(
        opened,
        Call::SetCursorStyle(CursorStyle::BlinkingUnderScore),
        Call::Show,
        Call::Flush,
    );
    let c1 = after_all(opened, cursor);
    lemma_after_two(c1, Call::DisableMouseCapture, Call::Flush);
    lemma_after_none(c1);
    let c2 = after_all(c1, mouse_off);
    assert(c2.in_turn);
    assert(c2.entered =~= seq![Mode::Raw] + (if uses_alternate_screen(k) {
        seq![Mode::AlternateScreen]
    } else {
        seq![]
    }));
    lemma_after_two(c2, Call::LeaveAlternateScreen, Call::Flush);
    lemma_after_none(c2);
    let c3 = after_all(c2, screen_off);
    assert(c3.in_turn);
    assert(c3.entered =~= seq![Mode::Raw]);
    lemma_after_one(c3, Call::DisableRawMode);
    let closed = after_all(c3, seq![Call::DisableRawMode]);
    assert(closed.entered =~= Seq::<Mode>::empty());
}

/// Which style bits count.
///
/// Only bits 0 and 1 of the style bits can change what is queued; every
/// higher bit is ignored. Of those two, bit 1 alone decides: Bold is queued
/// exactly when bit 1 is set, and Italic is queued whatever the bits are,
/// because the test against place 1 is never zero.
pub proof fn lemma_style_calls_by_bit(st: u16)
    ensures
        style_calls(st) == style_calls(st & 3),
        style_calls(st) == (if st & 2 != 0 {
            seq![Call::SetAttribute(Attribute::Bold)]
        } else {
            seq![]
        }) + seq![Call::SetAttribute(Attribute::Italic)],
{
    assert((st & 3) & 2 == st & 2) by (bit_vector);
    assert((st & 2) ^ 0 == st & 2) by (bit_vector);
    assert((st & 2) ^ 1 != 0) by (bit_vector);
}

/// Writing the same thing twice queues the same calls twice, the second run
/// behind the first, and changes nothing else about the session.
pub proof fn lemma_wr_twice_queues_twice(
    session: Session,
    x: u16,
    y: u16,
    st: u16,
    bg: Color,
    fg: Color,
    msg: String,
)
    ensures
        session.wr(x, y, st, bg, fg, msg).wr(x, y, st, bg, fg, msg) == session.queued(
            wr_calls(x, y, st, bg, fg, msg) + wr_calls(x, y, st, bg, fg, msg),
        ),
{
    let once = wr_calls(x, y, st, bg, fg, msg);
    assert((session.so + once) + once =~= session.so + (once + once));
}

/// `n` outcomes that report no failure.
pub open spec fn taken(n: nat) -> Seq<Result<(), IoError>> {
    Seq::new(n, |i: int| Ok(()))
}

/// The calls among `answers`, in order: what reaches the driver.
pub open spec fn handed_out(answers: Seq<Result<Option<Call>, IoError>>) -> Seq<Call>
    decreases answers.len(),
{
    if answers.len() == 0 {
        seq![]
    } else {
        (match answers.first() {
            Ok(Some(call)) => seq![call],
            _ => seq![],
        }) + handed_out(answers.drop_first())
    }
}

/// What reaches the driver in a run: the call answered to the first outcome,
/// then what the rest of the run hands out.
proof fn lemma_handed_out_unfolds(session: Session, outcomes: Seq<Result<(), IoError>>)
    requires
        outcomes.len() > 0,
    ensures
        handed_out(session.run(outcomes)) == (match session.step(outcomes.first()).1 {
            Ok(Some(call)) => seq![call],
            _ => seq![],
        }) + handed_out(session.step(outcomes.first()).0.run(outcomes.drop_first())),
{
    let (next, answer) = session.step(outcomes.first());
    let answers = seq![answer] + next.run(outcomes.drop_first());
    assert(answers.first() == answer);
    assert(answers.drop_first() =~= next.run(outcomes.drop_first()));
}

/// A session with nothing queued hands out nothing, whatever it is told.
pub proof fn lemma_empty_queue_hands_out_nothing(
    session: Session,
    outcomes: Seq<Result<(), IoError>>,
)
    requires
        session.so.len() == 0,
    ensures
        handed_out(session.run(outcomes)) == Seq::<Call>::empty(),
    decreases outcomes.len(),
{
    if outcomes.len() > 0 {
        lemma_handed_out_unfolds(session, outcomes);
        lemma_empty_queue_hands_out_nothing(
            session.step(outcomes.first()).0,
            outcomes.drop_first(),
        );
    }
}

/// Calls come out in the order in which they were queued.
///
/// While the driver takes every call, a run of `n` steps hands out the first
/// `n` queued calls, each once and in order, or all of them if fewer are
/// queued.
pub proof fn lemma_calls_come_out_in_order(session: Session, n: nat)
    ensures
        handed_out(session.run(taken(n))) == session.so.take(
            if n <= session.so.len() {
                n as int
            } else {
                session.so.len() as int
            },
        ),
    decreases n,
{
    if n > 0 {
        let next = session.step(Ok(())).0;
        assert(taken(n).first() == Ok::<(), IoError>(()));
        assert(taken(n).drop_first() =~= taken((n - 1) as nat));
        lemma_handed_out_unfolds(session, taken(n));
        lemma_calls_come_out_in_order(next, (n - 1) as nat);
        if session.so.len() > 0 {
            let rest = if n - 1 <= next.so.len() {
                n - 1
            } else {
                next.so.len() as int
            };
            assert(seq![session.so.first()] + session.so.drop_first().take(rest)
                =~= session.so.take(rest + 1));
        }
    }
    assert(session.so.take(0) =~= Seq::<Call>::empty());
}

/// A failed call is the last to reach the driver.
///
/// When the driver takes the first `i` calls of a run and fails the next,
/// the queued calls up to and with the failed one have reached the driver,
/// and whatever is reported afterwards, none of the calls queued behind it
/// ever does. No call is added to undo the ones that went through.
pub proof fn lemma_failed_call_is_the_last(
    session: Session,
    i: nat,
    e: IoError,
    rest: Seq<Result<(), IoError>>,
)
    requires
        i < session.so.len(),
    ensures
        handed_out(session.run(taken(i + 1) + seq![Err(e)] + rest)) == session.so.take((i + 1) as int),
    decreases i,
{
    let outcomes = taken(i + 1) + seq![Err(e)] + rest;
    let next = session.step(Ok(())).0;
    assert(outcomes.first() == Ok::<(), IoError>(()));
    lemma_handed_out_unfolds(session, outcomes);
    if i == 0 {
        let failed = seq![Err::<(), IoError>(e)] + rest;
        assert(outcomes.drop_first() =~= failed);
        lemma_handed_out_unfolds(next, failed);
        lemma_empty_queue_hands_out_nothing(next.step(Err(e)).0, failed.drop_first());
        assert(seq![session.so.first()] =~= session.so.take(1));
    } else {
        assert(outcomes.drop_first() =~= taken(i as nat) + seq![Err(e)] + rest);
        lemma_failed_call_is_the_last(next, (i - 1) as nat, e, rest);
        assert(seq![session.so.first()] + session.so.drop_first().take(i as int)
            =~= session.so.take((i + 1) as int));
    }
}

} // verus!
