//! The event feed: what the background input worker does next, from what the
//! terminal driver last reported.
//!
//! The worker polls with a bounded wait, reads when the driver says an event
//! is ready, sends what it read, and polls again. The first failure of a poll,
//! a read or a send stops it for good.

use vstd::prelude::*;
use std::time::Duration;
use crossterm::event::Event;
use crate::driver::IoError;

verus! {

/// crossterm's `event::Event`: one input occurrence as the terminal driver
/// decoded it. It is declared so that the feed can carry it from the read to
/// the send; nothing is said of what it holds, and the feed never looks.
#[verifier::external_type_specification]
#[verifier::external_body]
pub struct ExEvent(crossterm::event::Event);

/// What the driver, or the channel, answered to the worker's last action.
#[derive(Debug, PartialEq, Eq)]
pub enum Reply {
    /// The poll's answer: whether an event is ready.
    Polled(Result<bool, IoError>),
    /// The read's answer: the event.
    Read(Result<Event, IoError>),
    /// The send's answer. It fails when the receiving end is gone.
    Sent(Result<(), IoError>),
}

/// What the worker does next.
#[derive(Debug, PartialEq, Eq)]
pub enum Action {
    /// Ask the driver whether an event is ready, waiting no longer than this.
    Poll(Duration),
    /// Read one event from the driver. This may wait.
    Read,
    /// Send this event on the channel.
    Send(Event),
    /// End the worker.
    Stop,
}

/// The background input worker.
#[derive(Debug)]
pub struct Feed {
    /// The longest that one poll waits.
    pub ms: Duration,
    /// Whether the worker is still running.
    pub alive: bool,
}

impl Feed {
    /// The worker's first action.
    pub open spec fn spec_start(self) -> Action {
        if self.alive {
            Action::Poll(self.ms)
        } else {
            Action::Stop
        }
    }

    /// What `step` answers to `reply`, and the worker it leaves.
    pub open spec fn spec_step(self, reply: Reply) -> (Feed, Action) {
        if !self.alive {
            (self, Action::Stop)
        } else {
            match reply {
                Reply::Polled(Ok(false)) => (self, Action::Poll(self.ms)),
                Reply::Polled(Ok(true)) => (self, Action::Read),
                Reply::Read(Ok(ev)) => (self, Action::Send(ev)),
                Reply::Sent(Ok(())) => (self, Action::Poll(self.ms)),
                _ => (Feed { alive: false, ..self }, Action::Stop),
            }
        }
    }

    /// The actions with which the worker answers `replies`, one for one.
    pub open spec fn run(self, replies: Seq<Reply>) -> Seq<Action>
        decreases replies.len(),
    {
        if replies.len() == 0 {
            seq![]
        } else {
            let (next, action) = self.spec_step(replies.first());
            seq![action] + next.run(replies.drop_first())
        }
    }

    /// Everything the worker does against a driver that answers with
    /// `replies`: its first action, then its answer to each reply.
    pub open spec fn trace(self, replies: Seq<Reply>) -> Seq<Action> {
        seq![self.spec_start()] + self.run(replies)
    }

    /// A worker that polls with a wait of `ms`, not yet started.
    pub fn new(ms: Duration) -> (feed: Feed)
        ensures
            feed == (Feed { ms, alive: true }),
    {
        Feed { ms, alive: true }
    }

    /// The worker's first action: a poll, unless the worker has stopped.
    pub fn start(&self) -> (action: Action)
        ensures
            action == self.spec_start(),
    {
        if self.alive {
            Action::Poll(self.ms)
        } else {
            Action::Stop
        }
    }

    /// Tells the worker what came of its last action, and gets the next one.
    ///
    /// While the worker runs, the next action depends on the reply alone:
    /// nothing ready, poll again; something ready, read it; an event read,
    /// send it; the event sent, poll again. Any failure stops the worker, and
    /// a stopped worker answers every reply with `Stop`.
    pub fn step(&mut self, reply: Reply) -> (action: Action)
        ensures
            (*final(self), action) == old(self).spec_step(reply),
    {
        if !self.alive {
            return Action::Stop;
        }
        match reply {
            Reply::Polled(Ok(false)) => Action::Poll(self.ms),
            Reply::Polled(Ok(true)) => Action::Read,
            Reply::Read(Ok(ev)) => Action::Send(ev),
            Reply::Sent(Ok(())) => Action::Poll(self.ms),
            _ => {
                self.alive = false;
                Action::Stop
            },
        }
    }
}

} // verus!
