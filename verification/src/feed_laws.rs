//! What holds of the input worker whatever the driver reports: when it
//! sends, what it sends and in which order, and that a failure ends it.

use vstd::prelude::*;
use crossterm::event::Event;
use crate::driver::IoError;
use crate::feed::{Action, Feed, Reply};

verus! {

/// `n` polls that found nothing ready.
pub open spec fn idle_polls(n: nat) -> Seq<Reply> {
    Seq::new(n, |i: int| Reply::Polled(Ok(false)))
}

/// The same action `n` times.
pub open spec fn repeat(action: Action, n: nat) -> Seq<Action> {
    Seq::new(n, |i: int| action)
}

/// The events that `actions` hand to the channel, in the order in which they
/// are handed over.
pub open spec fn events_sent(actions: Seq<Action>) -> Seq<Event>
    decreases actions.len(),
{
    if actions.len() == 0 {
        seq![]
    } else {
        (match actions.first() {
            Action::Send(ev) => seq![ev],
            _ => seq![],
        }) + events_sent(actions.drop_first())
    }
}

/// The events that the driver hands to the worker's reads in `replies` before
/// anything fails, in the order in which it hands them over.
pub open spec fn events_read(replies: Seq<Reply>) -> Seq<Event>
    decreases replies.len(),
{
    if replies.len() == 0 {
        seq![]
    } else {
        match replies.first() {
            Reply::Read(Ok(ev)) => seq![ev] + events_read(replies.drop_first()),
            Reply::Polled(Ok(_)) => events_read(replies.drop_first()),
            Reply::Sent(Ok(())) => events_read(replies.drop_first()),
            _ => seq![],
        }
    }
}

/// Whether `reply` reports a failure.
pub open spec fn is_failure(reply: Reply) -> bool {
    match reply {
        Reply::Polled(r) => r is Err,
        Reply::Read(r) => r is Err,
        Reply::Sent(r) => r is Err,
    }
}

/// The worker's answer to a first reply, then to the rest.
pub proof fn lemma_run_unfolds(feed: Feed, reply: Reply, rest: Seq<Reply>)
    ensures
        feed.run(seq![reply] + rest) == seq![feed.spec_step(reply).1] + feed.spec_step(reply).0.run(
            rest,
        ),
{
    let replies = seq![reply] + rest;
    assert(replies.first() == reply);
    assert(replies.drop_first() =~= rest);
}

/// What two runs of actions send is what the first sends, then what the
/// second sends.
pub proof fn lemma_events_sent_concat(first: Seq<Action>, then: Seq<Action>)
    ensures
        events_sent(first + then) == events_sent(first) + events_sent(then),
    decreases first.len(),
{
    if first.len() == 0 {
        assert(first + then =~= then);
    } else {
        assert((first + then).first() == first.first());
        assert((first + then).drop_first() =~= first.drop_first() + then);
        lemma_events_sent_concat(first.drop_first(), then);
    }
}

/// Repeating an action that is no send sends nothing.
pub proof fn lemma_repeat_sends_nothing(action: Action, n: nat)
    requires
        !(action is Send),
    ensures
        events_sent(repeat(action, n)) == Seq::<Event>::empty(),
    decreases n,
{
    if n > 0 {
        assert(repeat(action, n).drop_first() =~= repeat(action, (n - 1) as nat));
        lemma_repeat_sends_nothing(action, (n - 1) as nat);
    }
}

/// A stopped worker answers every reply with `Stop`: it never polls, reads or
/// sends again.
pub proof fn lemma_stopped_worker_only_stops(feed: Feed, replies: Seq<Reply>)
    requires
        !feed.alive,
    ensures
        feed.run(replies) == repeat(Action::Stop, replies.len()),
    decreases replies.len(),
{
    if replies.len() > 0 {
        lemma_stopped_worker_only_stops(feed, replies.drop_first());
        assert(feed.run(replies) =~= repeat(Action::Stop, replies.len()));
    }
}

/// The first failure of a poll, a read or a send is fatal: the worker
/// answers it with `Stop`, and whatever the driver reports afterwards it
/// only ever answers with `Stop`.
pub proof fn lemma_first_failure_is_fatal(feed: Feed, failure: Reply, rest: Seq<Reply>)
    requires
        is_failure(failure),
    ensures
        feed.run(seq![failure] + rest) == repeat(Action::Stop, rest.len() + 1),
        events_sent(feed.run(seq![failure] + rest)) == Seq::<Event>::empty(),
{
    lemma_run_unfolds(feed, failure, rest);
    lemma_stopped_worker_only_stops(feed.spec_step(failure).0, rest);
    assert(feed.run(seq![failure] + rest) =~= repeat(Action::Stop, rest.len() + 1));
    lemma_repeat_sends_nothing(Action::Stop, rest.len() + 1);
}

/// While the driver has nothing ready, a running worker keeps polling with
/// its own wait and does nothing else.
pub proof fn lemma_idle_polls_only_poll(feed: Feed, n: nat, rest: Seq<Reply>)
    requires
        feed.alive,
    ensures
        feed.run(idle_polls(n) + rest) == repeat(Action::Poll(feed.ms), n) + feed.run(rest),
    decreases n,
{
    if n == 0 {
        assert(idle_polls(n) + rest =~= rest);
        assert(repeat(Action::Poll(feed.ms), n) + feed.run(rest) =~= feed.run(rest));
    } else {
        let shorter = idle_polls((n - 1) as nat) + rest;
        assert(idle_polls(n) + rest =~= seq![Reply::Polled(Ok(false))] + shorter);
        lemma_run_unfolds(feed, Reply::Polled(Ok(false)), shorter);
        lemma_idle_polls_only_poll(feed, (n - 1) as nat, rest);
        assert(seq![Action::Poll(feed.ms)] + (repeat(Action::Poll(feed.ms), (n - 1) as nat)
            + feed.run(rest)) =~= repeat(Action::Poll(feed.ms), n) + feed.run(rest));
    }
}

/// One event after `n` idle polls.
///
/// Against a driver that has nothing ready for `n` polls in a row, then
/// reports an event ready, hands `ev` to the read and takes the send, a
/// running worker polls `n + 1` times, reads, sends `ev`, and polls again.
/// So exactly one event is sent, it is `ev`, and the send comes after the `n`
/// polls that ran out their wait, not before.
pub proof fn lemma_one_event_after_idle_polls(feed: Feed, n: nat, ev: Event)
    requires
        feed.alive,
    ensures
        feed.trace(
            idle_polls(n) + seq![Reply::Polled(Ok(true)), Reply::Read(Ok(ev)), Reply::Sent(Ok(()))],
        ) == repeat(Action::Poll(feed.ms), n + 1) + seq![
            Action::Read,
            Action::Send(ev),
            Action::Poll(feed.ms),
        ],
        events_sent(
            feed.trace(
                idle_polls(n) + seq![
                    Reply::Polled(Ok(true)),
                    Reply::Read(Ok(ev)),
                    Reply::Sent(Ok(())),
                ],
            ),
        ) == seq![ev],
{
    let ready = Reply::Polled(Ok(true));
    let read = Reply::Read(Ok(ev));
    let sent = Reply::Sent(Ok(()));
    let tail = seq![ready, read, sent];
    let poll = Action::Poll(feed.ms);
    let answers = seq![Action::Read, Action::Send(ev), poll];

    lemma_idle_polls_only_poll(feed, n, tail);
    assert(tail =~= seq![ready] + seq![read, sent]);
    lemma_run_unfolds(feed, ready, seq![read, sent]);
    assert(seq![read, sent] =~= seq![read] + seq![sent]);
    lemma_run_unfolds(feed, read, seq![sent]);
    assert(seq![sent] =~= seq![sent] + Seq::<Reply>::empty());
    lemma_run_unfolds(feed, sent, Seq::<Reply>::empty());
    assert(feed.run(tail) =~= answers);
    assert(feed.trace(idle_polls(n) + tail) =~= repeat(poll, n + 1) + answers);

    lemma_events_sent_concat(repeat(poll, n + 1), answers);
    lemma_repeat_sends_nothing(poll, n + 1);
    assert(events_sent(answers) =~= seq![ev]) by {
        reveal_with_fuel(events_sent, 4);
        assert(answers.drop_first() =~= seq![Action::Send(ev), poll]);
        assert(answers.drop_first().drop_first() =~= seq![poll]);
        assert(answers.drop_first().drop_first().drop_first() =~= Seq::<Action>::empty());
    }
    assert(events_sent(repeat(poll, n + 1) + answers) =~= seq![ev]);
}

/// A read that fails ends the worker.
///
/// Against a driver that, after `n` idle polls, reports an event ready and
/// then fails the read, a running worker polls `n + 1` times, tries the
/// read, and stops. It sends nothing, and whatever `rest` the driver might
/// still report, it does not poll again.
pub proof fn lemma_failed_read_ends_worker(feed: Feed, n: nat, e: IoError, rest: Seq<Reply>)
    requires
        feed.alive,
    ensures
        feed.trace(idle_polls(n) + seq![Reply::Polled(Ok(true)), Reply::Read(Err(e))] + rest)
            == repeat(Action::Poll(feed.ms), n + 1) + seq![Action::Read] + repeat(
            Action::Stop,
            rest.len() + 1,
        ),
        events_sent(
            feed.trace(idle_polls(n) + seq![Reply::Polled(Ok(true)), Reply::Read(Err(e))] + rest),
        ) == Seq::<Event>::empty(),
{
    let ready = Reply::Polled(Ok(true));
    let failed = Reply::Read(Err(e));
    let poll = Action::Poll(feed.ms);
    let replies = idle_polls(n) + seq![ready, failed] + rest;
    let tail = seq![ready] + (seq![failed] + rest);
    let expected = repeat(poll, n + 1) + seq![Action::Read] + repeat(Action::Stop, rest.len() + 1);

    assert(replies =~= idle_polls(n) + tail);
    lemma_idle_polls_only_poll(feed, n, tail);
    lemma_run_unfolds(feed, ready, seq![failed] + rest);
    lemma_first_failure_is_fatal(feed, failed, rest);
    assert(feed.trace(replies) =~= expected);

    lemma_events_sent_concat(
        repeat(poll, n + 1) + seq![Action::Read],
        repeat(Action::Stop, rest.len() + 1),
    );
    lemma_events_sent_concat(repeat(poll, n + 1), seq![Action::Read]);
    lemma_repeat_sends_nothing(poll, n + 1);
    lemma_repeat_sends_nothing(Action::Stop, rest.len() + 1);
    assert(seq![Action::Read] =~= repeat(Action::Read, 1));
    lemma_repeat_sends_nothing(Action::Read, 1);
}

/// Delivery is first in, first out.
///
/// Whatever the driver reports, a running worker sends exactly the events
/// that the driver handed to its reads before the first failure, each once
/// and in the order in which they were read.
pub proof fn lemma_delivery_is_fifo(feed: Feed, replies: Seq<Reply>)
    requires
        feed.alive,
    ensures
        events_sent(feed.run(replies)) == events_read(replies),
        events_sent(feed.trace(replies)) == events_read(replies),
    decreases replies.len(),
{
    if replies.len() > 0 {
        let reply = replies.first();
        let rest = replies.drop_first();
        let (next, action) = feed.spec_step(reply);
        assert(replies =~= seq![reply] + rest);
        lemma_run_unfolds(feed, reply, rest);
        lemma_events_sent_concat(seq![action], next.run(rest));
        assert(events_sent(seq![action]) =~= (match action {
            Action::Send(ev) => seq![ev],
            _ => seq![],
        })) by {
            reveal_with_fuel(events_sent, 2);
            assert(seq![action].drop_first() =~= Seq::<Action>::empty());
        }
        if is_failure(reply) {
            lemma_stopped_worker_only_stops(next, rest);
            lemma_repeat_sends_nothing(Action::Stop, rest.len());
            assert(events_sent(feed.run(replies)) =~= events_read(replies));
        } else {
            lemma_delivery_is_fifo(next, rest);
            assert(events_sent(feed.run(replies)) =~= events_read(replies));
        }
    } else {
        assert(events_sent(feed.run(replies)) =~= events_read(replies));
    }
    lemma_events_sent_concat(seq![feed.spec_start()], feed.run(replies));
    assert(events_sent(seq![feed.spec_start()]) =~= Seq::<Event>::empty()) by {
        reveal_with_fuel(events_sent, 2);
        assert(seq![feed.spec_start()].drop_first() =~= Seq::<Action>::empty());
    }
}

} // verus!
