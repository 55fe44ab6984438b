//! Realtime, non-blocking terminal sessions, kept apart from the terminal itself.
//!
//! Nothing here touches a terminal. A [`PrayTerm`] decides which calls go to the
//! terminal driver and in which order, and hands them out one at a time; a
//! [`Feed`] decides what the background input worker does next. The caller
//! performs what they decide and reports how it went.

pub mod color;
pub mod driver;
pub mod feed;
pub mod feed_laws;
pub mod session;
pub mod session_laws;

pub use color::{Color, NopColor, Rgb};
pub use driver::{
    Attribute, Buffer, Call, CursorStyle, IoError, Mode, Modes, Nesting, Terminal,
};
pub use feed::{Action, Feed, Reply};
pub use session::{PrayTerm, Session};
