//! The calls that a session makes into the terminal driver, and three models
//! of what they do: to the terminal's modes, to the order in which modes are
//! entered and left, and to the output buffer.

use vstd::prelude::*;
use crate::color::Color;

verus! {

/// A text attribute.
#[derive(Clone, Copy, Debug, PartialEq, Eq, Structural)]
pub enum Attribute {
    Reset,
    Bold,
    Dim,
    Italic,
    Underlined,
    DoubleUnderlined,
    Undercurled,
    Underdotted,
    Underdashed,
    SlowBlink,
    RapidBlink,
    Reverse,
    Hidden,
    CrossedOut,
    Fraktur,
    NoBold,
    NormalIntensity,
    NoItalic,
    NoUnderline,
    NoBlink,
    NoReverse,
    NoHidden,
    NotCrossedOut,
    Framed,
    Encircled,
    OverLined,
    NotFramedOrEncircled,
    NotOverLined,
}

/// A cursor shape.
#[derive(Clone, Copy, Debug, PartialEq, Eq, Structural)]
pub enum CursorStyle {
    DefaultUserShape,
    BlinkingBlock,
    SteadyBlock,
    BlinkingUnderScore,
    SteadyUnderScore,
    BlinkingBar,
    SteadyBar,
}

/// One call into the terminal driver. Any of them may fail.
#[derive(Debug, PartialEq, Eq)]
pub enum Call {
    EnableRawMode,
    DisableRawMode,
    EnterAlternateScreen,
    LeaveAlternateScreen,
    EnableMouseCapture,
    DisableMouseCapture,
    SetCursorStyle(CursorStyle),
    Hide,
    Show,
    /// Clears the whole screen.
    ClearAll,
    SetAttribute(Attribute),
    /// Moves the cursor to a column and a row, both counted from zero.
    MoveTo(u16, u16),
    SetBackgroundColor(Color),
    SetForegroundColor(Color),
    Print(String),
    ResetColor,
    /// Forces out what the calls before it have left in the output buffer.
    Flush,
}

impl Clone for Call {
    fn clone(&self) -> (call: Call)
        ensures
            call == *self,
    {
        match self {
            Call::EnableRawMode => Call::EnableRawMode,
            Call::DisableRawMode => Call::DisableRawMode,
            Call::EnterAlternateScreen => Call::EnterAlternateScreen,
            Call::LeaveAlternateScreen => Call::LeaveAlternateScreen,
            Call::EnableMouseCapture => Call::EnableMouseCapture,
            Call::DisableMouseCapture => Call::DisableMouseCapture,
            Call::SetCursorStyle(shape) => Call::SetCursorStyle(*shape),
            Call::Hide => Call::Hide,
            Call::Show => Call::Show,
            Call::ClearAll => Call::ClearAll,
            Call::SetAttribute(attribute) => Call::SetAttribute(*attribute),
            Call::MoveTo(x, y) => Call::MoveTo(*x, *y),
            Call::SetBackgroundColor(color) => Call::SetBackgroundColor(*color),
            Call::SetForegroundColor(color) => Call::SetForegroundColor(*color),
            Call::Print(text) => Call::Print(text.clone()),
            Call::ResetColor => Call::ResetColor,
            Call::Flush => Call::Flush,
        }
    }
}

/// The one kind of error: the terminal driver failed a call.
#[derive(Clone, Copy, Debug, PartialEq, Eq, Structural)]
pub struct IoError;

/// A model of the terminal: a state that every driver call takes to the next.
pub trait Terminal: Sized {
    /// The state once the driver has performed `call`.
    spec fn after(self, call: Call) -> Self;
}

/// The state once the driver has performed `calls`, first to last.
pub open spec fn after_all<T: Terminal>(terminal: T, calls: Seq<Call>) -> T
    decreases calls.len(),
{
    if calls.len() == 0 {
        terminal
    } else {
        after_all(terminal, calls.drop_last()).after(calls.last())
    }
}

/// Performing `first` and then `then` is performing the two in a row.
pub proof fn lemma_after_all_concat<T: Terminal>(terminal: T, first: Seq<Call>, then: Seq<Call>)
    ensures
        after_all(terminal, first + then) == after_all(after_all(terminal, first), then),
    decreases then.len(),
{
    if then.len() == 0 {
        assert(first + then =~= first);
    } else {
        assert((first + then).drop_last() =~= first + then.drop_last());
        assert((first + then).last() == then.last());
        lemma_after_all_concat(terminal, first, then.drop_last());
    }
}

/// Performing no call changes nothing.
pub(crate) proof fn lemma_after_none<T: Terminal>(terminal: T)
    ensures
        after_all(terminal, Seq::<Call>::empty()) == terminal,
{
}

/// Performing one call.
pub(crate) proof fn lemma_after_one<T: Terminal>(terminal: T, a: Call)
    ensures
        after_all(terminal, seq![a]) == terminal.after(a),
{
    reveal_with_fuel(after_all, 2);
    assert(seq![a].drop_last() =~= Seq::<Call>::empty());
}

/// Performing two calls.
pub(crate) proof fn lemma_after_two<T: Terminal>(terminal: T, a: Call, b: Call)
    ensures
        after_all(terminal, seq![a, b]) == terminal.after(a).after(b),
{
    assert(seq![a, b].drop_last() =~= seq![a]);
    lemma_after_one(terminal, a);
}

/// Performing three calls.
pub(crate) proof fn lemma_after_three<T: Terminal>(terminal: T, a: Call, b: Call, c: Call)
    ensures
        after_all(terminal, seq![a, b, c]) == terminal.after(a).after(b).after(c),
{
    assert(seq![a, b, c].drop_last() =~= seq![a, b]);
    lemma_after_two(terminal, a, b);
}

/// The terminal modes that a session switches, each on or off.
///
/// This is what the session takes the driver to do with a mode switch: the
/// switch sets or clears its own flag and leaves the others alone, and every
/// other call leaves all four alone.
pub struct Modes {
    pub raw: bool,
    pub alternate_screen: bool,
    pub mouse_capture: bool,
    pub cursor_hidden: bool,
}

impl Terminal for Modes {
    open spec fn after(self, call: Call) -> Modes {
        match call {
            Call::EnableRawMode => Modes { raw: true, ..self },
            Call::DisableRawMode => Modes { raw: false, ..self },
            Call::EnterAlternateScreen => Modes { alternate_screen: true, ..self },
            Call::LeaveAlternateScreen => Modes { alternate_screen: false, ..self },
            Call::EnableMouseCapture => Modes { mouse_capture: true, ..self },
            Call::DisableMouseCapture => Modes { mouse_capture: false, ..self },
            Call::Hide => Modes { cursor_hidden: true, ..self },
            Call::Show => Modes { cursor_hidden: false, ..self },
            _ => self,
        }
    }
}

/// The output buffer between the driver and the terminal: the calls whose
/// output nothing has forced out yet, oldest first.
///
/// A flush empties it. The two raw mode switches act on the terminal
/// directly and write nothing. Every other call adds its output.
pub struct Buffer {
    pub waiting: Seq<Call>,
}

impl Terminal for Buffer {
    open spec fn after(self, call: Call) -> Buffer {
        match call {
            Call::Flush => Buffer { waiting: Seq::empty() },
            Call::EnableRawMode => self,
            Call::DisableRawMode => self,
            _ => Buffer { waiting: self.waiting.push(call) },
        }
    }
}

/// A mode that is entered and left again.
pub enum Mode {
    Raw,
    AlternateScreen,
    MouseCapture,
}

/// The modes that have been entered and not yet left, the one entered last
/// at the end, and whether every mode left so far was the one entered last.
pub struct Nesting {
    pub entered: Seq<Mode>,
    pub in_turn: bool,
}

impl Nesting {
    /// No mode entered, none left out of turn.
    pub open spec fn none() -> Nesting {
        Nesting { entered: Seq::empty(), in_turn: true }
    }

    pub open spec fn enter(self, mode: Mode) -> Nesting {
        Nesting { entered: self.entered.push(mode), ..self }
    }

    pub open spec fn leave(self, mode: Mode) -> Nesting {
        if self.entered.len() > 0 && self.entered.last() == mode {
            Nesting { entered: self.entered.drop_last(), ..self }
        } else {
            Nesting { in_turn: false, ..self }
        }
    }
}

impl Terminal for Nesting {
    open spec fn after(self, call: Call) -> Nesting {
        match call {
            Call::EnableRawMode => self.enter(Mode::Raw),
            Call::DisableRawMode => self.leave(Mode::Raw),
            Call::EnterAlternateScreen => self.enter(Mode::AlternateScreen),
            Call::LeaveAlternateScreen => self.leave(Mode::AlternateScreen),
            Call::EnableMouseCapture => self.enter(Mode::MouseCapture),
            Call::DisableMouseCapture => self.leave(Mode::MouseCapture),
            _ => self,
        }
    }
}

} // verus!
