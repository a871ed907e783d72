//! What one write does, from its beginning to its end.
//!
//! A [`FrameWrite`] decides; whoever drives it acts. It names one [`Action`]
//! at a time, is told with an [`Event`] what came of it, and names the next,
//! until it names the write's end. It holds no socket, no lock and no clock.
//!
//! A write without a gate looks whether the socket is closed, takes the
//! writer's lock, looks again, and sends. A write with a gate asks it before
//! it sends, and keeps one [`Deadline`] throughout:
//!
//! - [`Deadline::At`]: waiting for the lock counts against it, and a write
//!   past it is refused without being tried, even the first time;
//! - [`Deadline::NoWait`]: one try, now; if the lock is free, its gate is
//!   asked once, and a `Later` answer is a refusal. Nothing is waited for.
use vstd::prelude::*;
use crate::clock::Instant;
use crate::errors::{Error, Refusal, Waiting};
use crate::write_gate::{Admit, BoxedCall, Deadline, OutgoingMeta, WriteCall, WriteGate};

verus! {

/// Whether a write has a gate to ask.
#[derive(Debug, Clone, Copy, PartialEq, Eq, Structural)]
pub enum Pace {
    /// No gate: the write goes out as soon as it has the writer's lock.
    Free,
    /// A gate, and the deadline that it gave the write.
    Gated(Deadline),
}

/// How to take the writer's lock.
#[derive(Debug, Clone, Copy, PartialEq, Eq, Structural)]
pub enum Turn {
    /// Wait for it as long as it takes.
    Queue,
    /// Wait for it until this instant.
    Until(Instant),
    /// Take it if it is free now.
    Now,
}

/// What a write has to have done next.
#[derive(Debug, Clone, Copy, PartialEq, Eq)]
pub enum Action {
    /// Arm the wake-up that the socket's close gives, and only then look
    /// whether the socket is closed.
    Look,
    /// Take the writer's lock.
    Lock(Turn),
    /// Ask the write's gate, with the lock held.
    Ask,
    /// Send the frame and flush it, with the lock held.
    Send,
    /// Release the lock: its gate said not to ask again before `retry_at`.
    Release {
        retry_at: Instant,
    },
    /// Wait, without the lock, until this instant, its gate's wake-up or the
    /// socket's close.
    Wait {
        until: Instant,
    },
    /// Release the lock, if it is held: the write has ended.
    End(Result<(), Error>),
}

/// What came of an action.
#[derive(Debug, Clone, Copy, PartialEq, Eq)]
pub enum Event {
    /// The socket was looked at.
    Looked {
        closed: bool,
        now: Instant,
    },
    /// The lock was taken, and the socket was looked at after that.
    Locked {
        closed: bool,
        now: Instant,
    },
    /// The lock was not free.
    Busy,
    /// The lock was not free in time.
    TimedOut,
    /// Its gate answered.
    Answered(Admit),
    /// The lock was released.
    Released {
        now: Instant,
    },
    /// The wait ended, whatever ended it.
    Woken,
    /// The whole frame was sent.
    Sent,
    /// Sending failed.
    Failed,
}

/// One write on a connection.
#[derive(Debug, Clone, Copy, PartialEq, Eq)]
pub struct FrameWrite {
    /// The write's gate and deadline. Never changes.
    pub pace: Pace,
    /// What the write was last waiting for, so that a deadline that passes is
    /// named by the wait it ended.
    pub waiting: Waiting,
    /// What has to be done next.
    pub action: Action,
}

/// A write that has just begun.
pub open spec fn begun(pace: Pace) -> FrameWrite {
    FrameWrite { pace, waiting: Waiting::Start, action: Action::Look }
}

impl FrameWrite {
    /// The instant past which the write is not tried, if it has one.
    pub open spec fn limit(self) -> Option<Instant> {
        match self.pace {
            Pace::Gated(Deadline::At(at)) => Some(at),
            _ => None,
        }
    }

    /// Whether the write's deadline has passed.
    pub open spec fn is_past(self, now: Instant) -> bool {
        self.limit() matches Some(at) && now.reached(at)
    }

    /// The refusal of a write whose deadline has passed.
    pub open spec fn expiry(self) -> Error {
        Error::Refused(Refusal::Expired { waiting_for: self.waiting })
    }

    /// Why the write must not go on, seen from a look at the socket.
    pub open spec fn obstacle(self, closed: bool, now: Instant) -> Option<Error> {
        if closed {
            Some(Error::Closed)
        } else if self.is_past(now) {
            Some(self.expiry())
        } else {
            None
        }
    }

    /// How the write takes the lock.
    pub open spec fn turn(self) -> Turn {
        match self.pace {
            Pace::Free => Turn::Queue,
            Pace::Gated(Deadline::At(at)) => Turn::Until(at),
            Pace::Gated(Deadline::NoWait) => Turn::Now,
        }
    }

    /// Whether `event` can come of the action that the write has named.
    pub open spec fn expects(self, event: Event) -> bool {
        match (self.action, event) {
            (Action::Look, Event::Looked { .. }) => true,
            (Action::Lock(_), Event::Locked { .. }) => true,
            (Action::Lock(turn), Event::Busy) => turn == Turn::Now,
            (Action::Lock(turn), Event::TimedOut) => turn is Until,
            (Action::Ask, Event::Answered(_)) => true,
            (Action::Release { .. }, Event::Released { .. }) => true,
            (Action::Wait { .. }, Event::Woken) => true,
            (Action::Send, Event::Sent) => true,
            (Action::Send, Event::Failed) => true,
            _ => false,
        }
    }

    /// What the write has done after `event`.
    pub open spec fn reaction(self, event: Event) -> Action {
        match event {
            Event::Looked { closed, now } => match self.obstacle(closed, now) {
                Some(error) => Action::End(Err(error)),
                None => Action::Lock(self.turn()),
            },
            Event::Locked { closed, now } => match self.obstacle(closed, now) {
                Some(error) => Action::End(Err(error)),
                None => if self.pace is Free {
                    Action::Send
                } else {
                    Action::Ask
                },
            },
            Event::Busy => Action::End(Err(Error::Refused(Refusal::Busy))),
            Event::TimedOut => Action::End(Err(self.expiry())),
            Event::Answered(Admit::Write) => Action::Send,
            Event::Answered(Admit::Refuse(reason)) => Action::End(
                Err(Error::Refused(Refusal::Gate(reason))),
            ),
            Event::Answered(Admit::Later { retry_at }) => Action::Release { retry_at },
            Event::Released { now } => match self.limit() {
                None => Action::End(Err(Error::Refused(Refusal::NoSlot))),
                Some(at) => if now.reached(at) {
                    Action::End(Err(self.expiry()))
                } else {
                    Action::Wait { until: self.action->retry_at.earlier(at) }
                },
            },
            Event::Woken => Action::Look,
            Event::Sent => Action::End(Ok(())),
            Event::Failed => Action::End(Err(Error::Io)),
        }
    }

    /// What a write waits for once it has named `action`.
    pub open spec fn waiting_in(self, action: Action) -> Waiting {
        match action {
            Action::Lock(Turn::Until(_)) => Waiting::Writer,
            Action::Release { .. } => if self.limit() is Some {
                Waiting::Slot
            } else {
                self.waiting
            },
            _ => self.waiting,
        }
    }

    /// The write after `event`.
    pub open spec fn after(self, event: Event) -> FrameWrite {
        let action = self.reaction(event);
        FrameWrite { pace: self.pace, waiting: self.waiting_in(action), action }
    }

    /// Begin a write.
    pub fn new(pace: Pace) -> (write: FrameWrite)
        ensures
            write == begun(pace),
            write.pace == pace,
            write.waiting == Waiting::Start,
            write.action == Action::Look,
    {
        FrameWrite { pace, waiting: Waiting::Start, action: Action::Look }
    }

    /// Begin the write that `call` was begun for: with the call's deadline,
    /// asked here once.
    pub fn for_call<C: WriteCall + ?Sized>(call: &C) -> (write: FrameWrite)
        ensures
            write.pace matches Pace::Gated(deadline) && deadline_given(call, deadline) && write
                == begun(Pace::Gated(deadline)),
    {
        FrameWrite::new(Pace::Gated(call.deadline()))
    }

    /// Whether `event` can come of the action that the write has named.
    pub fn can_take(&self, event: &Event) -> (fits: bool)
        ensures
            fits == self.expects(*event),
    {
        match (self.action, *event) {
            (Action::Look, Event::Looked { .. }) => true,
            (Action::Lock(_), Event::Locked { .. }) => true,
            (Action::Lock(Turn::Now), Event::Busy) => true,
            (Action::Lock(Turn::Until(_)), Event::TimedOut) => true,
            (Action::Ask, Event::Answered(_)) => true,
            (Action::Release { .. }, Event::Released { .. }) => true,
            (Action::Wait { .. }, Event::Woken) => true,
            (Action::Send, Event::Sent) => true,
            (Action::Send, Event::Failed) => true,
            _ => false,
        }
    }

    /// Why the write must not go on, seen from a look at the socket.
    fn stopped_by(&self, closed: bool, now: Instant) -> (error: Option<Error>)
        ensures
            error == self.obstacle(closed, now),
    {
        if closed {
            return Some(Error::Closed);
        }
        match self.pace {
            // A deadline that has passed is never tried, first attempt
            // included; the wait for the writer's lock counts against it.
            Pace::Gated(Deadline::At(at)) if now.has_reached(at) => Some(
                Error::Refused(Refusal::Expired { waiting_for: self.waiting }),
            ),
            _ => None,
        }
    }

    /// Take what came of the action that the write has named, and name the
    /// next one.
    pub fn step(&mut self, event: Event) -> (next: Action)
        requires
            old(self).expects(event),
        ensures
            *final(self) == old(self).after(event),
            next == old(self).reaction(event),
            next == final(self).action,
            final(self).pace == old(self).pace,
    {
        let next: Action = match event {
            Event::Looked { closed, now } => match self.stopped_by(closed, now) {
                Some(error) => Action::End(Err(error)),
                None => match self.pace {
                    Pace::Free => Action::Lock(Turn::Queue),
                    // One try, now: the lock free and its gate willing, or
                    // nothing.
                    Pace::Gated(Deadline::NoWait) => Action::Lock(Turn::Now),
                    Pace::Gated(Deadline::At(at)) => {
                        self.waiting = Waiting::Writer;
                        Action::Lock(Turn::Until(at))
                    },
                },
            },
            // The close may have begun while the write waited for the lock.
            Event::Locked { closed, now } => match self.stopped_by(closed, now) {
                Some(error) => Action::End(Err(error)),
                None => match self.pace {
                    Pace::Free => Action::Send,
                    Pace::Gated(_) => Action::Ask,
                },
            },
            Event::Busy => Action::End(Err(Error::Refused(Refusal::Busy))),
            Event::TimedOut => Action::End(
                Err(Error::Refused(Refusal::Expired { waiting_for: self.waiting })),
            ),
            Event::Answered(Admit::Write) => Action::Send,
            Event::Answered(Admit::Refuse(reason)) => Action::End(
                Err(Error::Refused(Refusal::Gate(reason))),
            ),
            // Never wait holding the writer's lock: other writes on the
            // connection go ahead meanwhile.
            Event::Answered(Admit::Later { retry_at }) => {
                if let Pace::Gated(Deadline::At(_)) = self.pace {
                    self.waiting = Waiting::Slot;
                }
                Action::Release { retry_at }
            },
            Event::Released { now } => match (self.action, self.pace) {
                (Action::Release { retry_at }, Pace::Gated(Deadline::At(at))) => {
                    if now.has_reached(at) {
                        Action::End(
                            Err(Error::Refused(Refusal::Expired { waiting_for: self.waiting })),
                        )
                    } else {
                        Action::Wait { until: retry_at.min(at) }
                    }
                },
                _ => Action::End(Err(Error::Refused(Refusal::NoSlot))),
            },
            Event::Woken => Action::Look,
            Event::Sent => Action::End(Ok(())),
            Event::Failed => Action::End(Err(Error::Io)),
        };
        self.action = next;
        next
    }
}

/// Whether `deadline` is one that `call` can give when it is asked for its
/// write's deadline.
pub open spec fn deadline_given<C: WriteCall + ?Sized>(call: &C, deadline: Deadline) -> bool {
    call_ensures(C::deadline, (call,), deadline)
}

/// Whether `wakeup` is what `call` can give when it is asked for its write's
/// wake-up.
pub open spec fn wakeup_given<C: WriteCall + ?Sized>(
    call: &C,
    wakeup: Option<std::sync::Arc<tokio::sync::Notify>>,
) -> bool {
    call_ensures(C::wakeup, (call,), wakeup)
}

/// Begin a write that has a gate: begin the write's one call to it, ask that
/// call for the write's one deadline, and start the write with it. All of it
/// before the write waits for anything.
pub fn begin_gated<G: WriteGate + ?Sized>(gate: &G, meta: &OutgoingMeta) -> (started: (
    BoxedCall,
    FrameWrite,
))
    ensures
        call_ensures(G::begin, (gate, meta), started.0),
        started.1.pace matches Pace::Gated(deadline) && started.1 == begun(Pace::Gated(deadline))
            && deadline_given(&*started.0.0, deadline),
{
    let call: BoxedCall = gate.begin(meta);
    let write: FrameWrite = FrameWrite::for_call(&*call.0);
    (call, write)
}

/// The wake-up that a call gives its write.
fn wakeup_of<C: WriteCall + ?Sized>(call: &C) -> (wakeup: Option<
    std::sync::Arc<tokio::sync::Notify>,
>)
    ensures
        wakeup_given(call, wakeup),
{
    call.wakeup()
}

/// A write, together with its one call to its gate. The call has no other
/// owner: it is there from the beginning of the write, every answer comes
/// from it, by [`Attempt::ask`], and it is dropped once, by [`Attempt::end`]
/// when the write has ended, or with the attempt when that is dropped before.
pub struct Attempt {
    /// The call, if the write has a gate.
    pub call: Option<BoxedCall>,
    /// What wakes the write while it waits for a slot, besides time and the
    /// socket's close.
    pub wakeup: Option<std::sync::Arc<tokio::sync::Notify>>,
    /// The write itself.
    pub write: FrameWrite,
}

impl Attempt {
    /// A call is there exactly if the write has a gate.
    pub open spec fn wf(self) -> bool {
        self.call is Some <==> self.write.pace is Gated
    }

    /// Whether `answer` is one that the write's call can give when it is asked
    /// next.
    pub open spec fn can_get(self, answer: Admit) -> bool {
        self.call matches Some(call) && call.0.can_answer(answer)
    }

    /// Begin a write: one with a gate has a call to it, and its deadline and
    /// wake-up are asked of that call here, once. One without a gate is a
    /// plain write, whatever it is about to send.
    pub fn begin<G: WriteGate + ?Sized>(gate: Option<&G>, meta: &OutgoingMeta) -> (attempt: Attempt)
        ensures
            attempt.wf(),
            gate is None ==> {
                &&& attempt.call is None
                &&& attempt.wakeup is None
                &&& attempt.write == begun(Pace::Free)
            },
            gate matches Some(asked) ==> {
                &&& attempt.call matches Some(call)
                &&& call_ensures(G::begin, (asked, meta), call)
                &&& wakeup_given(&*call.0, attempt.wakeup)
                &&& attempt.write.pace matches Pace::Gated(deadline)
                &&& deadline_given(&*call.0, deadline)
                &&& attempt.write == begun(Pace::Gated(deadline))
            },
    {
        match gate {
            Some(asked) => {
                let (call, write): (BoxedCall, FrameWrite) = begin_gated(asked, meta);
                let wakeup: Option<std::sync::Arc<tokio::sync::Notify>> = wakeup_of(&*call.0);
                Attempt { call: Some(call), wakeup, write }
            },
            None => Attempt::plain(),
        }
    }

    /// Begin a write that has no gate.
    pub fn plain() -> (attempt: Attempt)
        ensures
            attempt.wf(),
            attempt.call is None,
            attempt.wakeup is None,
            attempt.write == begun(Pace::Free),
    {
        Attempt { call: None, wakeup: None, write: FrameWrite::new(Pace::Free) }
    }

    /// Take what came of the action that the write has named, and name the
    /// next one. The call and the wake-up stay the same. An answer is not
    /// taken here: it comes from the call, by [`Attempt::ask`].
    pub fn step(&mut self, event: Event) -> (next: Action)
        requires
            old(self).wf(),
            old(self).write.expects(event),
            event !is Answered,
        ensures
            final(self).wf(),
            final(self).write == old(self).write.after(event),
            next == old(self).write.reaction(event),
            final(self).wakeup == old(self).wakeup,
            final(self).call == old(self).call,
    {
        self.write.step(event)
    }

    /// Ask the write's own call, once, whether it may go out now, and name
    /// what follows from the answer.
    pub fn ask(&mut self) -> (next: Action)
        requires
            old(self).wf(),
            old(self).write.action is Ask,
            old(self).write.pace is Gated,
        ensures
            final(self).wf(),
            final(self).wakeup == old(self).wakeup,
            exists|answer: Admit| #[trigger]
                old(self).can_get(answer) && final(self).write == old(self).write.after(
                    Event::Answered(answer),
                ) && next == old(self).write.reaction(Event::Answered(answer)),
    {
        match &mut self.call {
            Some(call) => {
                let answer: Admit = call.0.ask();
                assert(old(self).can_get(answer));
                self.write.step(Event::Answered(answer))
            },
            None => self.write.action,
        }
    }

    /// Give up a write that has ended, and its call with it: what came of the
    /// write.
    pub fn end(self) -> (outcome: Result<(), Error>)
        requires
            self.wf(),
            self.write.action is End,
        ensures
            self.write.action == Action::End(outcome),
    {
        match self.write.action {
            Action::End(outcome) => outcome,
            _ => Ok(()),
        }
    }
}

/// An answer that an attempt can get is one that its own call can give, and a
/// write without a gate can get none.
pub proof fn an_answer_is_the_calls_own(attempt: Attempt, answer: Admit)
    ensures
        attempt.can_get(answer) <==> (attempt.call matches Some(call) && call.0.can_answer(answer)),
{
}

/// What a call is said to give, as a deadline or as a wake-up, is what its own
/// methods can return.
pub proof fn a_call_gives_what_its_methods_return<C: WriteCall + ?Sized>(
    call: &C,
    deadline: Deadline,
    wakeup: Option<std::sync::Arc<tokio::sync::Notify>>,
)
    ensures
        deadline_given(call, deadline) <==> call_ensures(C::deadline, (call,), deadline),
        wakeup_given(call, wakeup) <==> call_ensures(C::wakeup, (call,), wakeup),
{
}

/// An attempt has a call exactly if its write has a gate.
pub proof fn a_call_is_there_exactly_with_a_gate(attempt: Attempt)
    ensures
        attempt.wf() <==> (attempt.call is Some <==> attempt.write.pace is Gated),
{
}

/// Whatever [`Attempt::begin`] returns begins with a look, and has waited for
/// nothing. Without a gate it has no call, no wake-up and no deadline,
/// whatever it is about to send. With one it has the call that its gate began
/// for it, and the deadline and the wake-up that this call gave.
pub proof fn an_attempt_has_what_its_gate_gave<G: WriteGate + ?Sized>(
    gate: Option<&G>,
    meta: &OutgoingMeta,
    attempt: Attempt,
)
    requires
        call_ensures(Attempt::begin::<G>, (gate, meta), attempt),
    ensures
        attempt.write.action == Action::Look,
        attempt.write.waiting == Waiting::Start,
        gate is None ==> attempt.call is None && attempt.wakeup is None && attempt.write.pace
            is Free,
        gate matches Some(asked) ==> {
            &&& attempt.call matches Some(call)
            &&& call_ensures(G::begin, (asked, meta), call)
            &&& attempt.write.pace matches Pace::Gated(deadline)
            &&& deadline_given(&*call.0, deadline)
            &&& wakeup_given(&*call.0, attempt.wakeup)
        },
{
}

/// Whatever [`FrameWrite::for_call`] returns begins with a look, and has the
/// deadline that the call gave.
pub proof fn a_write_has_the_deadline_of_its_call<C: WriteCall + ?Sized>(
    call: &C,
    write: FrameWrite,
)
    requires
        call_ensures(FrameWrite::for_call::<C>, (call,), write),
    ensures
        write.action == Action::Look,
        write.waiting == Waiting::Start,
        write.pace matches Pace::Gated(deadline) && call_ensures(C::deadline, (call,), deadline),
{
}

} // verus!
