//! What holds of every write, whatever its gate, the clock, the lock and the
//! socket do.
//!
//! A history is the events that a write has taken so far. The laws speak of
//! every history that a write can have.
use vstd::prelude::*;
use crate::clock::Instant;
use crate::errors::{Error, Refusal, Waiting};
use crate::write::{begun, Action, Attempt, Event, FrameWrite, Pace, Turn};
use crate::write_gate::{Admit, Deadline};

verus! {

/// The write that began with `pace`, after the events in `history`.
pub open spec fn write_after(pace: Pace, history: Seq<Event>) -> FrameWrite
    decreases history.len(),
{
    if history.len() == 0 {
        begun(pace)
    } else {
        write_after(pace, history.drop_last()).after(history.last())
    }
}

/// Whether a write that began with `pace` can have taken exactly the events
/// in `history`: each of them came of the action that the write had named.
pub open spec fn possible(pace: Pace, history: Seq<Event>) -> bool
    decreases history.len(),
{
    history.len() > 0 ==> {
        &&& possible(pace, history.drop_last())
        &&& write_after(pace, history.drop_last()).expects(history.last())
    }
}

/// What the write has done after the first `n` events of `history`.
pub open spec fn action_at(pace: Pace, history: Seq<Event>, n: int) -> Action {
    write_after(pace, history.take(n)).action
}

/// Whether the frame has been handed to the socket, in whole or in part.
pub open spec fn has_sent(pace: Pace, history: Seq<Event>) -> bool {
    exists|n: int| 0 <= n <= history.len() && #[trigger] action_at(pace, history, n) is Send
}

/// Whether the writer's lock is held: it has been taken, and not been
/// released since.
pub open spec fn holds_lock(history: Seq<Event>) -> bool
    decreases history.len(),
{
    if history.len() == 0 {
        false
    } else if history.last() is Locked {
        true
    } else if history.last() is Released {
        false
    } else {
        holds_lock(history.drop_last())
    }
}

/// How often the write's gate has answered.
pub open spec fn answers(history: Seq<Event>) -> nat
    decreases history.len(),
{
    if history.len() == 0 {
        0
    } else if history.last() is Answered {
        answers(history.drop_last()) + 1
    } else {
        answers(history.drop_last())
    }
}

/// The wait that the write last entered: it waits for the writer from when it
/// has the lock taken, and for a slot from when its gate holds it back.
pub open spec fn last_wait(pace: Pace, history: Seq<Event>) -> Waiting
    decreases history.len(),
{
    match write_after(pace, history).action {
        Action::Lock(_) => Waiting::Writer,
        Action::Release { .. } => Waiting::Slot,
        _ => if history.len() == 0 {
            Waiting::Start
        } else {
            last_wait(pace, history.drop_last())
        },
    }
}

/// Whether a look found the socket closed.
pub open spec fn found_closed(event: Event) -> bool {
    match event {
        Event::Looked { closed, .. } => closed,
        Event::Locked { closed, .. } => closed,
        _ => false,
    }
}

/// A possible history without its last events is a possible history.
pub proof fn a_write_has_a_past(pace: Pace, history: Seq<Event>, n: int)
    requires
        possible(pace, history),
        0 <= n <= history.len(),
    ensures
        possible(pace, history.take(n)),
    decreases history.len(),
{
    if n < history.len() {
        a_write_has_a_past(pace, history.drop_last(), n);
        assert(history.drop_last().take(n) == history.take(n));
    } else {
        assert(history.take(n) == history);
    }
}

/// One gate, one deadline: neither waits, wakes nor answers change them.
pub proof fn a_write_keeps_one_deadline(pace: Pace, history: Seq<Event>)
    ensures
        write_after(pace, history).pace == pace,
    decreases history.len(),
{
    if history.len() > 0 {
        a_write_keeps_one_deadline(pace, history.drop_last());
    }
}

/// A write that has ended takes no more events: it ends once.
pub proof fn a_write_ends_once(pace: Pace, history: Seq<Event>, n: int)
    requires
        possible(pace, history),
        0 <= n <= history.len(),
        action_at(pace, history, n) is End,
    ensures
        n == history.len(),
{
    if n < history.len() {
        a_write_has_a_past(pace, history, n + 1);
        assert(history.take(n + 1).drop_last() == history.take(n));
    }
}

/// As long as a write has not ended, something can come of the action that it
/// has named.
pub proof fn a_write_is_never_stuck(write: FrameWrite)
    requires
        write.action !is End,
    ensures
        exists|event: Event| write.expects(event),
{
    let now = Instant { nanos: 0 };
    match write.action {
        Action::Look => assert(write.expects(Event::Looked { closed: true, now })),
        Action::Lock(_) => assert(write.expects(Event::Locked { closed: true, now })),
        Action::Ask => assert(write.expects(Event::Answered(Admit::Write))),
        Action::Send => assert(write.expects(Event::Sent)),
        Action::Release { .. } => assert(write.expects(Event::Released { now })),
        Action::Wait { .. } => assert(write.expects(Event::Woken)),
        Action::End(_) => {},
    }
}

/// A gate is asked only by a write that has one, with the lock just taken, on
/// an open socket and before the deadline.
pub proof fn the_gate_is_asked_under_the_lock(pace: Pace, history: Seq<Event>)
    requires
        possible(pace, history),
        write_after(pace, history).action is Ask,
    ensures
        pace is Gated,
        history.len() > 0,
        history.last() matches Event::Locked { closed, now } && {
            &&& !closed
            &&& pace matches Pace::Gated(Deadline::At(at)) ==> !now.reached(at)
        },
{
    a_write_keeps_one_deadline(pace, history.drop_last());
}

/// Nothing is sent that was not granted. A gated write sends only when its
/// gate's last answer is to write, given under a lock that was taken on an
/// open socket and before the deadline. A write without a gate sends only
/// when it has just taken the lock on an open socket.
pub proof fn nothing_is_sent_without_a_grant(pace: Pace, history: Seq<Event>)
    requires
        possible(pace, history),
        write_after(pace, history).action is Send,
    ensures
        history.len() > 0,
        pace is Free ==> (history.last() matches Event::Locked { closed, .. } && !closed),
        pace is Gated ==> {
            &&& history.len() > 1
            &&& history.last() == Event::Answered(Admit::Write)
            &&& history[history.len() - 2] matches Event::Locked { closed, now }
            &&& !closed
            &&& pace matches Pace::Gated(Deadline::At(at)) ==> !now.reached(at)
        },
{
    let before = history.drop_last();
    a_write_keeps_one_deadline(pace, before);
    if pace is Gated {
        the_gate_is_asked_under_the_lock(pace, before);
    } else {
        a_free_write_asks_no_gate(pace, before);
    }
}

/// A write without a gate asks none, and waits for nothing but the lock.
pub proof fn a_free_write_asks_no_gate(pace: Pace, history: Seq<Event>)
    requires
        possible(pace, history),
        pace is Free,
    ensures
        write_after(pace, history).action !is Ask,
        write_after(pace, history).action !is Release,
        write_after(pace, history).action !is Wait,
        write_after(pace, history).action matches Action::Lock(turn) ==> turn == Turn::Queue,
        write_after(pace, history).action matches Action::End(Err(error)) ==> error == Error::Closed
            || error == Error::Io,
        answers(history) == 0,
    decreases history.len(),
{
    a_write_keeps_one_deadline(pace, history);
    if history.len() > 0 {
        a_write_keeps_one_deadline(pace, history.drop_last());
        a_free_write_asks_no_gate(pace, history.drop_last());
    }
}

/// Once the frame has been handed to the socket, the write ends with what
/// the socket made of it.
proof fn a_send_is_the_last_act(pace: Pace, history: Seq<Event>)
    requires
        possible(pace, history),
        has_sent(pace, history),
    ensures
        ({
            ||| write_after(pace, history).action is Send
            ||| write_after(pace, history).action == Action::End(Ok(()))
            ||| write_after(pace, history).action == Action::End(Err(Error::Io))
        }),
    decreases history.len(),
{
    let n = choose|n: int|
        0 <= n <= history.len() && #[trigger] action_at(pace, history, n) is Send;
    if n == history.len() {
        assert(history.take(n) == history);
    } else {
        let before = history.drop_last();
        assert(before.take(n) == history.take(n));
        assert(action_at(pace, before, n) is Send);
        a_send_is_the_last_act(pace, before);
    }
}

/// A refusal hands no byte to the socket, and neither does a close: a write
/// that ends with either was never sent, in whole or in part.
pub proof fn a_refused_write_sent_nothing(pace: Pace, history: Seq<Event>)
    requires
        possible(pace, history),
        write_after(pace, history).action matches Action::End(Err(error)) && (error is Refused
            || error is Closed),
    ensures
        !has_sent(pace, history),
{
    if has_sent(pace, history) {
        a_send_is_the_last_act(pace, history);
    }
}

/// A write succeeds only by sending its frame, and an error of the socket
/// comes only from sending it.
pub proof fn a_success_was_sent(pace: Pace, history: Seq<Event>)
    requires
        possible(pace, history),
        ({
            ||| write_after(pace, history).action == Action::End(Ok(()))
            ||| write_after(pace, history).action == Action::End(Err(Error::Io))
        }),
    ensures
        has_sent(pace, history),
        history.len() > 0,
        action_at(pace, history, history.len() - 1) is Send,
        write_after(pace, history).action == Action::End(Ok(())) ==> history.last() is Sent,
        write_after(pace, history).action == Action::End(Err(Error::Io)) ==> history.last()
            is Failed,
{
    let n = history.len() - 1;
    assert(history.take(n) == history.drop_last());
    assert(action_at(pace, history, n) is Send);
}

/// Any answer but `Later` is a write's last: its gate is not asked again, and
/// all that follows it is the end, or, where it was a grant, the one send.
pub proof fn a_decision_is_the_last_answer(pace: Pace, history: Seq<Event>, n: int)
    requires
        possible(pace, history),
        0 <= n < history.len(),
        history[n] matches Event::Answered(answer) && answer !is Later,
    ensures
        forall|i: int| n < i < history.len() ==> (#[trigger] history[i] is Sent || history[i]
            is Failed),
        history.len() <= n + 2,
        history[n] == Event::Answered(Admit::Write) ==> {
            &&& action_at(pace, history, n + 1) is Send
            &&& history.len() == n + 2 ==> write_after(pace, history).action is End
        },
        history[n] matches Event::Answered(Admit::Refuse(reason)) ==> {
            &&& history.len() == n + 1
            &&& write_after(pace, history).action == Action::End(
                Err(Error::Refused(Refusal::Gate(reason))),
            )
        },
{
    let answered = history.take(n + 1);
    a_write_has_a_past(pace, history, n + 1);
    assert(answered.last() == history[n]);
    assert(answered.drop_last() == history.take(n));
    if history.len() == n + 1 {
        assert(answered == history);
    } else {
        let next = history.take(n + 2);
        a_write_has_a_past(pace, history, n + 2);
        assert(next.last() == history[n + 1]);
        assert(next.drop_last() == answered);
        if history.len() > n + 2 {
            assert(action_at(pace, history, n + 2) is End);
            a_write_ends_once(pace, history, n + 2);
        }
        assert(next == history);
    }
}

/// A gated write that ends well was granted exactly once, by the last answer
/// that it got; by every answer before that it was held back.
pub proof fn a_success_was_granted_once(pace: Pace, history: Seq<Event>)
    requires
        possible(pace, history),
        pace is Gated,
        write_after(pace, history).action == Action::End(Ok(())),
    ensures
        history.len() >= 2,
        history.last() is Sent,
        history[history.len() - 2] == Event::Answered(Admit::Write),
        forall|i: int|
            0 <= i < history.len() - 2 ==> (#[trigger] history[i] matches Event::Answered(answer)
                ==> answer is Later),
{
    let granted = history.drop_last();
    a_success_was_sent(pace, history);
    assert(history.take(history.len() - 1) == granted);
    nothing_is_sent_without_a_grant(pace, granted);
    assert forall|i: int| 0 <= i < history.len() - 2 implies (#[trigger] history[i]
        matches Event::Answered(answer) ==> answer is Later) by {
        if history[i] matches Event::Answered(answer) && answer !is Later {
            a_decision_is_the_last_answer(pace, history, i);
            assert(history[history.len() - 2] is Answered);
        }
    }
}

/// How a write can end, and on which event: well exactly when its whole frame
/// was sent, with the socket's error exactly when sending failed, and as
/// closed exactly when a look, before the lock or under it, found the socket
/// closed. A write without a gate ends in no other way.
pub proof fn a_write_ends_as_its_last_event_says(pace: Pace, history: Seq<Event>)
    requires
        possible(pace, history),
    ensures
        write_after(pace, history).action == Action::End(Ok(())) <==> history.len() > 0
            && history.last() is Sent,
        write_after(pace, history).action == Action::End(Err(Error::Io)) <==> history.len() > 0
            && history.last() is Failed,
        write_after(pace, history).action == Action::End(Err(Error::Closed)) <==> history.len() > 0
            && found_closed(history.last()),
        pace is Free && write_after(pace, history).action is End ==> history.last() is Sent
            || history.last() is Failed || found_closed(history.last()),
{
    if history.len() > 0 {
        a_write_keeps_one_deadline(pace, history.drop_last());
        if pace is Free {
            a_free_write_asks_no_gate(pace, history);
            a_free_write_asks_no_gate(pace, history.drop_last());
        }
    }
}

/// The lock is held exactly where it is needed: to ask, to send, and until it
/// is released. A write never waits holding it, so other writes on the
/// connection go ahead meanwhile.
pub proof fn the_lock_is_never_held_across_a_wait(pace: Pace, history: Seq<Event>)
    requires
        possible(pace, history),
    ensures
        match write_after(pace, history).action {
            Action::Look | Action::Lock(_) | Action::Wait { .. } => !holds_lock(history),
            Action::Ask | Action::Send | Action::Release { .. } => holds_lock(history),
            Action::End(_) => true,
        },
    decreases history.len(),
{
    if history.len() > 0 {
        the_lock_is_never_held_across_a_wait(pace, history.drop_last());
    }
}

/// A write that does not wait is one try, now: it takes the lock only if it is
/// free, asks its gate at most once, and never waits for a slot.
pub proof fn no_wait_is_one_try(pace: Pace, history: Seq<Event>)
    requires
        possible(pace, history),
        pace == Pace::Gated(Deadline::NoWait),
    ensures
        write_after(pace, history).action !is Wait,
        write_after(pace, history).action matches Action::Lock(turn) ==> turn == Turn::Now,
        answers(history) <= 1,
        history.len() <= 4,
        write_after(pace, history).action matches Action::End(Err(Error::Refused(refusal)))
            ==> refusal !is Expired,
{
    reveal_with_fuel(possible, 6);
    reveal_with_fuel(write_after, 6);
    reveal_with_fuel(answers, 6);
    if history.len() > 4 {
        a_write_has_a_past(pace, history, 5);
    }
}

/// A `Later` answer to a write that does not wait is a refusal, as soon as
/// the lock is released.
pub proof fn no_slot_now_is_a_refusal(
    pace: Pace,
    history: Seq<Event>,
    retry_at: Instant,
    now: Instant,
)
    requires
        possible(pace, history),
        pace == Pace::Gated(Deadline::NoWait),
        write_after(pace, history).action is Ask,
    ensures
        ({
            let held = history.push(Event::Answered(Admit::Later { retry_at }));
            let released = held.push(Event::Released { now });
            &&& possible(pace, released)
            &&& write_after(pace, released).action == Action::End(
                Err(Error::Refused(Refusal::NoSlot)),
            )
        }),
{
    a_write_keeps_one_deadline(pace, history);
    let held = history.push(Event::Answered(Admit::Later { retry_at }));
    let released = held.push(Event::Released { now });
    assert(held.drop_last() == history);
    assert(possible(pace, held));
    assert(released.drop_last() == held);
    assert(possible(pace, released));
}

/// What a write says that it waits for is the wait that it last entered, as
/// far as it waits at all.
proof fn the_last_wait_is_kept(pace: Pace, history: Seq<Event>)
    requires
        possible(pace, history),
    ensures
        pace matches Pace::Gated(Deadline::At(_)) ==> write_after(pace, history).waiting
            == last_wait(pace, history),
    decreases history.len(),
{
    a_write_keeps_one_deadline(pace, history);
    if history.len() > 0 {
        a_write_keeps_one_deadline(pace, history.drop_last());
        the_last_wait_is_kept(pace, history.drop_last());
    }
}

/// A write is refused as expired only if it has a deadline that has passed,
/// and the refusal names the wait that the deadline ended: the last one that
/// the write entered, across every release and retake of the lock.
pub proof fn an_expired_write_names_the_wait_it_ended(
    pace: Pace,
    history: Seq<Event>,
    waiting_for: Waiting,
)
    requires
        possible(pace, history),
        write_after(pace, history).action == Action::End(
            Err(Error::Refused(Refusal::Expired { waiting_for })),
        ),
    ensures
        history.len() > 0,
        waiting_for == last_wait(pace, history.drop_last()),
        pace matches Pace::Gated(Deadline::At(at)) && match history.last() {
            Event::Looked { closed, now } => !closed && now.reached(at),
            Event::Locked { closed, now } => !closed && now.reached(at),
            Event::Released { now } => now.reached(at),
            Event::TimedOut => true,
            _ => false,
        },
{
    let before = history.drop_last();
    a_write_keeps_one_deadline(pace, before);
    the_last_wait_is_kept(pace, before);
    only_a_deadline_bounds_the_lock(pace, before);
}

/// Only a write with a deadline takes the lock with a time limit, and the
/// limit is the deadline.
pub proof fn only_a_deadline_bounds_the_lock(pace: Pace, history: Seq<Event>)
    requires
        possible(pace, history),
    ensures
        write_after(pace, history).action matches Action::Lock(Turn::Until(at)) ==> pace
            == Pace::Gated(Deadline::At(at)),
{
    a_write_keeps_one_deadline(pace, history);
    if history.len() > 0 {
        a_write_keeps_one_deadline(pace, history.drop_last());
    }
}

/// A write whose deadline has passed is not tried: whenever it is told that
/// time, it ends, and its gate is not asked.
pub proof fn a_passed_deadline_ends_the_write(pace: Pace, history: Seq<Event>, at: Instant)
    requires
        possible(pace, history),
        pace == Pace::Gated(Deadline::At(at)),
        history.len() > 0,
        match history.last() {
            Event::Looked { now, .. } => now.reached(at),
            Event::Locked { now, .. } => now.reached(at),
            Event::Released { now } => now.reached(at),
            Event::TimedOut => true,
            _ => false,
        },
    ensures
        write_after(pace, history).action matches Action::End(Err(error)) && (error is Refused
            || error is Closed),
        !has_sent(pace, history),
{
    a_write_keeps_one_deadline(pace, history.drop_last());
    a_refused_write_sent_nothing(pace, history);
}

/// A write whose deadline passed before it began is refused at its first
/// step, before it waits for anything, the lock and its gate untouched.
pub proof fn an_expired_deadline_is_never_tried_even_first(at: Instant, now: Instant)
    requires
        now.reached(at),
    ensures
        ({
            let pace = Pace::Gated(Deadline::At(at));
            let history = seq![Event::Looked { closed: false, now }];
            &&& possible(pace, history)
            &&& write_after(pace, history).action == Action::End(
                Err(Error::Refused(Refusal::Expired { waiting_for: Waiting::Start })),
            )
        }),
{
    let pace = Pace::Gated(Deadline::At(at));
    let history = seq![Event::Looked { closed: false, now }];
    assert(history.drop_last() == Seq::<Event>::empty());
    reveal_with_fuel(possible, 2);
    reveal_with_fuel(write_after, 2);
}

/// A write that finds the socket closed, before it takes the lock or after,
/// ends as closed and has sent nothing.
pub proof fn a_closed_socket_ends_the_write(pace: Pace, history: Seq<Event>)
    requires
        possible(pace, history),
        history.len() > 0,
        found_closed(history.last()),
    ensures
        write_after(pace, history).action == Action::End(Err(Error::Closed)),
        !has_sent(pace, history),
{
    a_refused_write_sent_nothing(pace, history);
}

/// Whether every look at the socket from the `n`th event on finds it closed.
pub open spec fn closed_from(history: Seq<Event>, n: int) -> bool {
    forall|i: int|
        n <= i < history.len() ==> match #[trigger] history[i] {
            Event::Looked { closed, .. } => closed,
            Event::Locked { closed, .. } => closed,
            _ => true,
        }
}

/// A write that had not started when the close began is never sent: not one
/// that waits for the lock, nor one that its gate holds back. Started means
/// that the write has the lock and has found the socket open under it.
pub proof fn a_close_keeps_back_what_had_not_started(pace: Pace, history: Seq<Event>, n: int)
    requires
        possible(pace, history),
        0 <= n <= history.len(),
        closed_from(history, n),
        action_at(pace, history, n) !is Ask,
        action_at(pace, history, n) !is Send,
        !has_sent(pace, history.take(n)),
    ensures
        !has_sent(pace, history),
        write_after(pace, history).action !is Ask,
    decreases history.len() - n,
{
    if n == history.len() {
        assert(history.take(n) == history);
    } else {
        let next = history.take(n + 1);
        a_write_has_a_past(pace, history, n + 1);
        assert(next.drop_last() == history.take(n));
        assert(next.last() == history[n]);
        assert(!has_sent(pace, next)) by {
            assert forall|m: int| 0 <= m <= next.len() implies !(#[trigger] action_at(pace, next, m)
                is Send) by {
                if m <= n {
                    assert(next.take(m) == history.take(n).take(m));
                    assert(action_at(pace, history.take(n), m) !is Send);
                } else {
                    assert(next.take(m) == next);
                }
            }
        }
        a_close_keeps_back_what_had_not_started(pace, history, n + 1);
    }
}

/// A wait ends at its gate's `retry_at` or at the deadline, whichever comes
/// first, and never begins once the deadline has passed.
pub proof fn a_wait_is_bounded(pace: Pace, history: Seq<Event>, until: Instant)
    requires
        possible(pace, history),
        write_after(pace, history).action == (Action::Wait { until }),
    ensures
        history.len() > 1,
        pace matches Pace::Gated(Deadline::At(at)) && {
            &&& history[history.len() - 2] matches Event::Answered(Admit::Later { retry_at })
            &&& until == retry_at.earlier(at)
            &&& at.reached(until)
            &&& retry_at.reached(until)
            &&& history.last() matches Event::Released { now }
            &&& !now.reached(at)
        },
{
    let before = history.drop_last();
    a_write_keeps_one_deadline(pace, before);
    assert(before.len() > 0);
    a_write_keeps_one_deadline(pace, before.drop_last());
}

/// A wake, whoever gives it, changes neither the deadline nor what the write
/// waits for: the write looks at the socket and the clock again.
pub proof fn a_wake_never_moves_the_deadline(pace: Pace, history: Seq<Event>)
    requires
        possible(pace, history),
        write_after(pace, history).action is Wait,
    ensures
        possible(pace, history.push(Event::Woken)),
        write_after(pace, history.push(Event::Woken)) == (FrameWrite {
            action: Action::Look,
            ..write_after(pace, history)
        }),
{
    assert(history.push(Event::Woken).drop_last() == history);
}

/// A write that its gate holds back asks again after its wait, as long as the
/// socket is open and the deadline has not passed.
pub proof fn a_write_held_back_asks_again(
    pace: Pace,
    history: Seq<Event>,
    at: Instant,
    looked: Instant,
    locked: Instant,
)
    requires
        possible(pace, history),
        write_after(pace, history).action is Wait,
        pace == Pace::Gated(Deadline::At(at)),
        !looked.reached(at),
        !locked.reached(at),
    ensures
        ({
            let woken = history.push(Event::Woken);
            let open = woken.push(Event::Looked { closed: false, now: looked });
            let held = open.push(Event::Locked { closed: false, now: locked });
            &&& possible(pace, held)
            &&& write_after(pace, open).action == Action::Lock(Turn::Until(at))
            &&& write_after(pace, held).action is Ask
        }),
{
    a_write_keeps_one_deadline(pace, history);
    let woken = history.push(Event::Woken);
    let open = woken.push(Event::Looked { closed: false, now: looked });
    let held = open.push(Event::Locked { closed: false, now: locked });
    assert(woken.drop_last() == history);
    assert(possible(pace, woken));
    assert(open.drop_last() == woken);
    assert(possible(pace, open));
    assert(held.drop_last() == open);
    assert(possible(pace, held));
}

/// While one write waits for its slot, another goes first: the lock is free,
/// and on an open socket, before its deadline, all that the other needs is
/// its gate's grant.
pub proof fn another_write_goes_first(
    waiting: Pace,
    history: Seq<Event>,
    deadline: Deadline,
    now: Instant,
)
    requires
        possible(waiting, history),
        write_after(waiting, history).action is Wait,
        deadline matches Deadline::At(at) ==> !now.reached(at),
    ensures
        !holds_lock(history),
        ({
            let pace = Pace::Gated(deadline);
            let looked = seq![Event::Looked { closed: false, now }];
            let locked = looked.push(Event::Locked { closed: false, now });
            let granted = locked.push(Event::Answered(Admit::Write));
            let sent = granted.push(Event::Sent);
            &&& possible(pace, sent)
            &&& write_after(pace, granted).action is Send
            &&& write_after(pace, sent).action == Action::End(Ok(()))
        }),
{
    the_lock_is_never_held_across_a_wait(waiting, history);
    let pace = Pace::Gated(deadline);
    let looked = seq![Event::Looked { closed: false, now }];
    let locked = looked.push(Event::Locked { closed: false, now });
    let granted = locked.push(Event::Answered(Admit::Write));
    let sent = granted.push(Event::Sent);
    assert(looked.drop_last() == Seq::<Event>::empty());
    assert(possible(pace, looked.drop_last()));
    assert(possible(pace, looked));
    assert(locked.drop_last() == looked);
    assert(possible(pace, locked));
    assert(granted.drop_last() == locked);
    assert(possible(pace, granted));
    assert(sent.drop_last() == granted);
    assert(possible(pace, sent));
}

/// A write begins by looking at the socket, and has not waited for anything.
pub proof fn a_write_begins_with_a_look(pace: Pace)
    ensures
        begun(pace).pace == pace,
        begun(pace).waiting == Waiting::Start,
        begun(pace).action == Action::Look,
{
}

/// What a write names after an event is what it has to have done next, and no
/// event changes its gate or its deadline.
pub proof fn an_event_changes_no_deadline(write: FrameWrite, event: Event)
    ensures
        write.after(event).action == write.reaction(event),
        write.after(event).pace == write.pace,
{
}

/// What can come of an action: of a look, that the socket was looked at; of
/// taking the lock, that it was taken, or, only where the write does not wait,
/// that it is busy, or, only where the wait is limited, that it was not free
/// in time; of asking, an answer; of releasing, that the lock is free; of
/// waiting, a wake; of sending, that all was sent or that sending failed; and
/// of the end, nothing.
pub proof fn what_can_come_of_an_action(write: FrameWrite, event: Event)
    ensures
        event is Looked ==> (write.expects(event) <==> write.action is Look),
        event is Locked ==> (write.expects(event) <==> write.action is Lock),
        event is Busy ==> (write.expects(event) <==> write.action == Action::Lock(Turn::Now)),
        event is TimedOut ==> (write.expects(event) <==> (write.action matches Action::Lock(turn)
            && turn is Until)),
        event is Answered ==> (write.expects(event) <==> write.action is Ask),
        event is Released ==> (write.expects(event) <==> write.action is Release),
        event is Woken ==> (write.expects(event) <==> write.action is Wait),
        event is Sent || event is Failed ==> (write.expects(event) <==> write.action is Send),
{
}

/// A look at the socket, before the lock or under it, stops a write in two
/// cases and no others: the socket is closed, or the deadline has come, to
/// the nanosecond. The close goes first, and an expired write is told the
/// wait that the deadline ended. Without a deadline no time stops a write.
pub proof fn a_look_stops_a_closed_or_expired_write(write: FrameWrite, closed: bool, now: Instant)
    ensures
        ({
            let looked = write.after(Event::Looked { closed, now });
            let locked = write.after(Event::Locked { closed, now });
            let expired = write.pace matches Pace::Gated(Deadline::At(at)) && at.nanos <= now.nanos;
            &&& looked.action is End <==> closed || expired
            &&& locked.action is End <==> closed || expired
            &&& closed ==> looked.action == Action::End(Err(Error::Closed)) && locked.action
                == Action::End(Err(Error::Closed))
            &&& !closed && expired ==> {
                let refused = Action::End(
                    Err(Error::Refused(Refusal::Expired { waiting_for: write.waiting })),
                );
                looked.action == refused && locked.action == refused
            }
        }),
{
}

/// A write that may go on takes the lock, and waits for it no longer than it
/// may: until its deadline, if it has one; not at all, if it does not wait;
/// and as long as it takes, if it has no gate. From then on a write with a
/// deadline waits for the writer.
pub proof fn the_lock_is_waited_for_as_long_as_it_may_be(write: FrameWrite, now: Instant)
    ensures
        ({
            let next = write.after(Event::Looked { closed: false, now });
            &&& write.pace is Free ==> next.action == Action::Lock(Turn::Queue)
            &&& write.pace == Pace::Gated(Deadline::NoWait) ==> next.action == Action::Lock(
                Turn::Now,
            )
            &&& write.pace matches Pace::Gated(Deadline::At(at)) ==> now.nanos < at.nanos ==> {
                &&& next.action == Action::Lock(Turn::Until(at))
                &&& next.waiting == Waiting::Writer
            }
            &&& !(write.pace matches Pace::Gated(Deadline::At(_))) ==> next.waiting
                == write.waiting
        }),
{
}

/// Whenever a write is to take the lock, on its first try or any later one,
/// the wait for it is limited by the deadline, if the write has one, and the
/// write says that it waits for the writer. A write that does not wait does
/// not queue, and one without a gate has no limit.
pub proof fn a_deadline_bounds_every_wait_for_the_lock(
    pace: Pace,
    history: Seq<Event>,
    turn: Turn,
)
    requires
        possible(pace, history),
        write_after(pace, history).action == Action::Lock(turn),
    ensures
        pace matches Pace::Gated(Deadline::At(at)) ==> {
            &&& turn == Turn::Until(at)
            &&& write_after(pace, history).waiting == Waiting::Writer
            &&& possible(pace, history.push(Event::TimedOut))
            &&& write_after(pace, history.push(Event::TimedOut)).action == Action::End(
                Err(Error::Refused(Refusal::Expired { waiting_for: Waiting::Writer })),
            )
        },
        pace == Pace::Gated(Deadline::NoWait) ==> turn == Turn::Now,
        pace is Free ==> turn == Turn::Queue,
{
    let before = history.drop_last();
    assert(history.len() > 0);
    a_write_keeps_one_deadline(pace, before);
    assert(history.push(Event::TimedOut).drop_last() == history);
}

/// A write that has the lock on an open socket, before its deadline, asks its
/// gate, or, without a gate, sends; it says as before what it waited for.
pub proof fn with_the_lock_a_write_asks_or_sends(write: FrameWrite, now: Instant)
    requires
        write.pace matches Pace::Gated(Deadline::At(at)) ==> now.nanos < at.nanos,
    ensures
        ({
            let next = write.after(Event::Locked { closed: false, now });
            &&& write.pace is Free <==> next.action is Send
            &&& write.pace is Gated <==> next.action is Ask
            &&& next.waiting == write.waiting
        }),
{
}

/// A write that does not get the lock is refused: as busy, if it does not
/// wait, and else as expired, with the wait that ended.
pub proof fn without_the_lock_a_write_is_refused(write: FrameWrite)
    ensures
        write.after(Event::Busy).action == Action::End(Err(Error::Refused(Refusal::Busy))),
        write.after(Event::TimedOut).action == Action::End(
            Err(Error::Refused(Refusal::Expired { waiting_for: write.waiting })),
        ),
{
}

/// An answer is followed to the letter: a grant is sent, a refusal ends the
/// write with the reason that was given, and a write that is held gives the
/// lock up and keeps the instant that it was given. From then on a write with
/// a deadline waits for a slot.
pub proof fn an_answer_is_followed(write: FrameWrite, answer: Admit)
    ensures
        ({
            let next = write.after(Event::Answered(answer));
            &&& answer is Write <==> next.action is Send
            &&& answer matches Admit::Refuse(reason) ==> next.action == Action::End(
                Err(Error::Refused(Refusal::Gate(reason))),
            )
            &&& answer matches Admit::Later { retry_at } ==> next.action == (Action::Release {
                retry_at,
            })
            &&& answer is Later && (write.pace matches Pace::Gated(Deadline::At(_)))
                ==> next.waiting == Waiting::Slot
            &&& answer !is Later ==> next.waiting == write.waiting
        }),
{
}

/// A write that was held waits until the instant that it was given or until
/// its deadline, whichever comes first: the end of the wait is one of the two,
/// and is after neither. It waits only before its deadline. At the deadline it
/// is refused as expired, and a write that does not wait has no slot.
pub proof fn a_held_write_waits_until_the_first_of_the_two(
    write: FrameWrite,
    retry_at: Instant,
    now: Instant,
)
    requires
        write.action == (Action::Release { retry_at }),
    ensures
        ({
            let next = write.after(Event::Released { now });
            &&& next.waiting == write.waiting
            &&& write.pace matches Pace::Gated(Deadline::At(at)) ==> {
                &&& now.nanos < at.nanos ==> {
                    &&& next.action matches Action::Wait { until }
                    &&& until.nanos <= retry_at.nanos
                    &&& until.nanos <= at.nanos
                    &&& until.nanos == retry_at.nanos || until.nanos == at.nanos
                }
                &&& at.nanos <= now.nanos ==> next.action == Action::End(
                    Err(Error::Refused(Refusal::Expired { waiting_for: write.waiting })),
                )
            }
            &&& !(write.pace matches Pace::Gated(Deadline::At(_))) ==> next.action == Action::End(
                Err(Error::Refused(Refusal::NoSlot)),
            )
        }),
{
}

/// A wake, whoever gives it, leads to a new look, and a send to the end of
/// the write: well if all was sent, and with the socket's error if not.
pub proof fn a_wake_looks_again_and_a_send_ends(write: FrameWrite)
    ensures
        write.after(Event::Woken).action == Action::Look,
        write.after(Event::Woken).waiting == write.waiting,
        write.after(Event::Sent).action == Action::End(Ok(())),
        write.after(Event::Failed).action == Action::End(Err(Error::Io)),
{
}

/// A held write sleeps until the first of its gate's instant and its
/// deadline, in nanoseconds, for every way that it got there.
pub proof fn every_wait_ends_at_one_of_two_instants(
    pace: Pace,
    history: Seq<Event>,
    until: Instant,
)
    requires
        possible(pace, history),
        write_after(pace, history).action == (Action::Wait { until }),
    ensures
        history.len() > 1,
        pace matches Pace::Gated(Deadline::At(at)) && {
            &&& history[history.len() - 2] matches Event::Answered(Admit::Later { retry_at })
            &&& until.nanos <= retry_at.nanos
            &&& until.nanos <= at.nanos
            &&& until.nanos == retry_at.nanos || until.nanos == at.nanos
            &&& history.last() matches Event::Released { now }
            &&& now.nanos < at.nanos
        },
{
    a_wait_is_bounded(pace, history, until);
}

/// Whatever [`FrameWrite::new`] returns is about to look, with nothing waited
/// for, and [`FrameWrite::can_take`] says whether an event fits the action.
pub proof fn a_write_takes_what_fits(
    pace: Pace,
    new: FrameWrite,
    write: FrameWrite,
    event: Event,
    fits: bool,
)
    requires
        call_ensures(FrameWrite::new, (pace,), new),
        call_ensures(FrameWrite::can_take, (&write, &event), fits),
    ensures
        new.pace == pace,
        new.waiting == Waiting::Start,
        new.action == Action::Look,
        event is Looked ==> (fits <==> write.action is Look),
        event is Locked ==> (fits <==> write.action is Lock),
        event is Busy ==> (fits <==> write.action == Action::Lock(Turn::Now)),
        event is TimedOut ==> (fits <==> (write.action matches Action::Lock(turn) && turn
            is Until)),
        event is Answered ==> (fits <==> write.action is Ask),
        event is Released ==> (fits <==> write.action is Release),
        event is Woken ==> (fits <==> write.action is Wait),
        event is Sent || event is Failed ==> (fits <==> write.action is Send),
        fits ==> write.action !is End,
{
    what_can_come_of_an_action(write, event);
}

/// Whatever [`Attempt::plain`] returns has no call and no wake-up, and
/// whatever [`Attempt::end`] returns is how the write ended.
pub proof fn an_attempt_ends_as_its_write_did(
    plain: Attempt,
    attempt: Attempt,
    outcome: Result<(), Error>,
)
    requires
        call_ensures(Attempt::plain, (), plain),
        call_ensures(Attempt::end, (attempt,), outcome),
    ensures
        plain.call is None,
        plain.wakeup is None,
        plain.write.pace is Free,
        plain.write.action is Look,
        attempt.write.action == Action::End(outcome),
{
}

} // verus!
