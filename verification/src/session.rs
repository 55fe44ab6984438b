//! The terminal session: which driver calls each operation makes, in which
//! order, and what happens to the rest of them when one fails.

use vstd::prelude::*;
use std::time::Duration;
use crate::color::{Color, NopColor};
use crate::driver::{Attribute, Call, CursorStyle, IoError};
use crate::feed::Feed;

verus! {

/// Whether flags `k` ask for the alternate screen.
pub open spec fn uses_alternate_screen(k: u16) -> bool {
    k & 5 != 0
}

/// Whether flags `k` ask for mouse capture.
pub open spec fn uses_mouse_capture(k: u16) -> bool {
    k & 6 != 0
}

/// Whether style bits `st` select the attribute at place `i` of the list
/// Bold, Italic.
///
/// The test is an exclusive-or of bit 1 with the place, not a mask shifted to
/// the place: see `lemma_style_calls_by_bit`.
pub open spec fn selects(st: u16, i: u16) -> bool {
    (st & 2) ^ i != 0
}

/// The calls that open a session: raw mode first, then the screen, then the mouse.
pub open spec fn new_calls(k: u16) -> Seq<Call> {
    seq![Call::EnableRawMode] + (if uses_alternate_screen(k) {
        seq![Call::EnterAlternateScreen, Call::Flush]
    } else {
        seq![]
    }) + (if uses_mouse_capture(k) {
        seq![Call::EnableMouseCapture, Call::Flush]
    } else {
        seq![]
    })
}

/// The calls that bring the screen into its active state.
pub open spec fn begin_calls() -> Seq<Call> {
    seq![
        Call::SetCursorStyle(CursorStyle::DefaultUserShape),
        Call::Hide,
        Call::ClearAll,
        Call::Flush,
    ]
}

/// The calls that close a session: the cursor comes back, then what
/// `new_calls` switched on is switched off, last first.
pub open spec fn fin_calls(k: u16) -> Seq<Call> {
    seq![Call::SetCursorStyle(CursorStyle::BlinkingUnderScore), Call::Show, Call::Flush] + (
    if uses_mouse_capture(k) {
        seq![Call::DisableMouseCapture, Call::Flush]
    } else {
        seq![]
    }) + (if uses_alternate_screen(k) {
        seq![Call::LeaveAlternateScreen, Call::Flush]
    } else {
        seq![]
    }) + seq![Call::DisableRawMode]
}

/// The attribute calls that style bits `st` stand for.
pub open spec fn style_calls(st: u16) -> Seq<Call> {
    (if selects(st, 0) {
        seq![Call::SetAttribute(Attribute::Bold)]
    } else {
        seq![]
    }) + (if selects(st, 1) {
        seq![Call::SetAttribute(Attribute::Italic)]
    } else {
        seq![]
    })
}

/// The calls that write one styled message and force it out.
pub open spec fn wr_calls(x: u16, y: u16, st: u16, bg: Color, fg: Color, msg: String) -> Seq<Call> {
    style_calls(st) + seq![
        Call::MoveTo(x, y),
        Call::SetBackgroundColor(bg),
        Call::SetForegroundColor(fg),
        Call::Print(msg),
        Call::ResetColor,
        Call::Flush,
    ]
}

/// A session as the contracts see it: its flags, the size it was made with,
/// and the calls it has queued, oldest first.
pub struct Session {
    pub k: u16,
    pub w: u16,
    pub h: u16,
    pub so: Seq<Call>,
}

impl Session {
    /// The same session with `calls` queued behind what is queued already.
    pub open spec fn queued(self, calls: Seq<Call>) -> Session {
        Session { so: self.so + calls, ..self }
    }

    /// A session just made: nothing but the opening calls is queued.
    pub open spec fn new(k: u16, w: u16, h: u16) -> Session {
        Session { k, w, h, so: new_calls(k) }
    }

    /// The session after `begin`.
    pub open spec fn begin(self) -> Session {
        self.queued(begin_calls())
    }

    /// The session after `fin`: it closes by the flags it was made with.
    pub open spec fn fin(self) -> Session {
        self.queued(fin_calls(self.k))
    }

    /// The session after `style`: one attribute call, and no flush.
    pub open spec fn style(self, s: Attribute) -> Session {
        self.queued(seq![Call::SetAttribute(s)])
    }

    /// The session after `wr` with colors that resolve to `bg` and `fg`.
    pub open spec fn wr(self, x: u16, y: u16, st: u16, bg: Color, fg: Color, msg: String) -> Session {
        self.queued(wr_calls(x, y, st, bg, fg, msg))
    }

    /// What `step` answers to the outcome `last`, and the session it leaves.
    pub open spec fn step(self, last: Result<(), IoError>) -> (Session, Result<Option<Call>, IoError>) {
        match last {
            Err(e) => (Session { so: Seq::empty(), ..self }, Err(e)),
            Ok(()) => if self.so.len() > 0 {
                (Session { so: self.so.drop_first(), ..self }, Ok(Some(self.so.first())))
            } else {
                (self, Ok(None))
            },
        }
    }

    /// What `step` answers to each of `outcomes` in turn, when nothing is
    /// queued in between.
    pub open spec fn run(self, outcomes: Seq<Result<(), IoError>>) -> Seq<
        Result<Option<Call>, IoError>,
    >
        decreases outcomes.len(),
    {
        if outcomes.len() == 0 {
            seq![]
        } else {
            let (next, answer) = self.step(outcomes.first());
            seq![answer] + next.run(outcomes.drop_first())
        }
    }
}

/// A terminal session.
///
/// The operations queue driver calls in `so`; `step` hands them out.
#[derive(Debug)]
pub struct PrayTerm {
    /// The mode flags, fixed when the session is made.
    pub k: u16,
    /// The terminal's width in columns when the session was made.
    pub w: u16,
    /// The terminal's height in rows when the session was made.
    pub h: u16,
    /// The calls that the driver has yet to get, oldest first.
    pub so: Vec<Call>,
}

impl View for PrayTerm {
    type V = Session;

    open spec fn view(&self) -> Session {
        Session { k: self.k, w: self.w, h: self.h, so: self.so@ }
    }
}

impl PrayTerm {
    fn queue(&mut self, call: Call)
        ensures
            final(self)@ == old(self)@.queued(seq![call]),
    {
        self.so.push(call);
        assert(self.so@ =~= old(self).so@ + seq![call]);
    }

    /// Makes a session with flags `k` on a terminal that the driver reported
    /// as `w` columns wide and `h` rows high, and queues the calls that open
    /// it. The flags and the size never change afterwards.
    pub fn new(k: u16, w: u16, h: u16) -> (tm: PrayTerm)
        ensures
            tm@ == Session::new(k, w, h),
    {
        let mut tm = PrayTerm { k, w, h, so: Vec::new() };
        tm.queue(Call::EnableRawMode);
        if k & 5 != 0 {
            tm.queue(Call::EnterAlternateScreen);
            tm.queue(Call::Flush);
        }
        if k & 6 != 0 {
            tm.queue(Call::EnableMouseCapture);
            tm.queue(Call::Flush);
        }
        assert(tm.so@ =~= new_calls(k));
        tm
    }

    /// Queues the calls that bring the screen into its active state.
    pub fn begin(&mut self)
        ensures
            final(self)@ == old(self)@.begin(),
    {
        self.queue(Call::SetCursorStyle(CursorStyle::DefaultUserShape));
        self.queue(Call::Hide);
        self.queue(Call::ClearAll);
        self.queue(Call::Flush);
        assert(self.so@ =~= old(self).so@ + begin_calls());
    }

    /// Queues the calls that close the session. What was switched on when
    /// the session was made is switched off, last first.
    pub fn fin(&mut self)
        ensures
            final(self)@ == old(self)@.fin(),
    {
        self.queue(Call::SetCursorStyle(CursorStyle::BlinkingUnderScore));
        self.queue(Call::Show);
        self.queue(Call::Flush);
        if self.k & 6 != 0 {
            self.queue(Call::DisableMouseCapture);
            self.queue(Call::Flush);
        }
        if self.k & 5 != 0 {
            self.queue(Call::LeaveAlternateScreen);
            self.queue(Call::Flush);
        }
        self.queue(Call::DisableRawMode);
        assert(self.so@ =~= old(self).so@ + fin_calls(self.k));
    }

    /// Queues a change of text attribute. Nothing forces it out.
    pub fn style(&mut self, s: Attribute)
        ensures
            final(self)@ == old(self)@.style(s),
    {
        self.queue(Call::SetAttribute(s));
    }

    /// Queues one styled message: the attributes that `st` selects, the move
    /// to column `x`, row `y`, the two colors, the text, a color reset, and a
    /// flush. The position is not held against the session's size.
    pub fn wr(
        &mut self,
        x: u16,
        y: u16,
        st: u16,
        bg: impl NopColor,
        fg: impl NopColor,
        msg: &String,
    )
        ensures
            final(self)@ == old(self)@.wr(x, y, st, bg.color(), fg.color(), *msg),
    {
        let styles: [Attribute; 2] = [Attribute::Bold, Attribute::Italic];
        let mut i: usize = 0;
        while i < 2
            invariant
                i <= 2,
                styles[0] == Attribute::Bold,
                styles[1] == Attribute::Italic,
                self.k == old(self).k,
                self.w == old(self).w,
                self.h == old(self).h,
                i == 0 ==> self.so@ == old(self).so@,
                i == 1 ==> self.so@ == old(self).so@ + (if selects(st, 0) {
                    seq![Call::SetAttribute(Attribute::Bold)]
                } else {
                    seq![]
                }),
                i == 2 ==> self.so@ == old(self).so@ + style_calls(st),
            decreases 2 - i,
        {
            if (st & 2) ^ (i as u16) != 0 {
                self.style(styles[i]);
            }
            i += 1;
        }
        self.queue(Call::MoveTo(x, y));
        self.queue(Call::SetBackgroundColor(bg.nop()));
        self.queue(Call::SetForegroundColor(fg.nop()));
        self.queue(Call::Print(msg.clone()));
        self.queue(Call::ResetColor);
        self.queue(Call::Flush);
        assert(self.so@ =~= old(self).so@ + wr_calls(x, y, st, bg.color(), fg.color(), *msg));
    }

    /// Makes the background input worker that polls the driver with a wait
    /// of `ms`. The worker is independent of the session from then on.
    pub fn prepare_thread(&self, ms: Duration) -> (feed: Feed)
        ensures
            feed == (Feed { ms, alive: true }),
    {
        Feed::new(ms)
    }

    /// Tells the session how the driver took the call last handed out, and
    /// gets the next thing to do.
    ///
    /// `Ok(Some(call))`: perform `call`, then come back with its outcome.
    /// `Ok(None)`: nothing is queued; every call handed out went through.
    /// `Err(e)`: the last call failed. The calls queued behind it are dropped
    /// and never reach the driver; nothing is undone.
    ///
    /// Before the first call of a run, `last` is `Ok(())`.
    pub fn step(&mut self, last: Result<(), IoError>) -> (next: Result<Option<Call>, IoError>)
        ensures
            (final(self)@, next) == old(self)@.step(last),
    {
        match last {
            Err(e) => {
                self.so.clear();
                Err(e)
            },
            Ok(()) => {
                if self.so.len() > 0 {
                    let call = self.so.remove(0);
                    assert(self.so@ =~= old(self).so@.drop_first());
                    Ok(Some(call))
                } else {
                    Ok(None)
                }
            },
        }
    }
}

} // verus!
