//! Writes driven through a connection whose clock, lock and peer are played
//! by the test.

use std::sync::{Arc, Mutex, MutexGuard};

use tokio::sync::Notify;

use write_gate::clock::{Duration, Instant};
use write_gate::closing::{CloseStep, Closing, Reconnect, ReconnectAction, ReconnectEvent};
use write_gate::errors::{Error, Refusal, Waiting};
use write_gate::framing::{encode_raw_length, frames};
use write_gate::gates::{in_ms, soon, woken};
use write_gate::requests::{cancel, place};
use write_gate::write::{Action, Attempt, Event, FrameWrite, Pace, Turn};
use write_gate::write_gate::{
    describe, Admit, BoxedCall, Deadline, GateReason, OutgoingMeta, WriteCall, WriteGate,
};

fn ms(ms: u64) -> Instant {
    Instant { nanos: ms * 1_000_000 }
}

fn expired(waiting_for: Waiting) -> Result<(), Error> {
    Err(Error::Refused(Refusal::Expired { waiting_for }))
}

/// A connection that the test plays: what time it is, until when another
/// write holds the lock, when the socket closes, when a wake comes for its
/// writes, and what the peer has received.
struct World {
    now: Instant,
    held_from: Instant,
    held_until: Instant,
    closes_at: Option<Instant>,
    wakes: Vec<Instant>,
    wire: Vec<u8>,
    asked: usize,
}

impl World {
    fn new() -> World {
        World {
            now: ms(1000),
            held_from: ms(0),
            held_until: ms(0),
            closes_at: None,
            wakes: Vec::new(),
            wire: Vec::new(),
            asked: 0,
        }
    }

    fn closed(&self) -> bool {
        matches!(self.closes_at, Some(at) if at.nanos <= self.now.nanos)
    }

    fn lock_is_held(&self) -> bool {
        self.held_from.nanos <= self.now.nanos && self.now.nanos < self.held_until.nanos
    }

    /// Do what the write names, once.
    fn act(&mut self, write: &FrameWrite, body: &[u8], gate: &mut dyn FnMut(Instant) -> Admit) -> Event {
        match write.action {
            Action::Look => Event::Looked { closed: self.closed(), now: self.now },
            Action::Lock(turn) => {
                if self.lock_is_held() {
                    match turn {
                        Turn::Now => return Event::Busy,
                        Turn::Until(at) if at.nanos <= self.held_until.nanos => {
                            self.now = at;
                            return Event::TimedOut;
                        }
                        _ => self.now = self.held_until,
                    }
                }
                Event::Locked { closed: self.closed(), now: self.now }
            }
            Action::Ask => {
                self.asked += 1;
                Event::Answered(gate(self.now))
            }
            Action::Send => {
                self.wire.extend(encode_raw_length(body));
                Event::Sent
            }
            Action::Release { .. } => Event::Released { now: self.now },
            Action::Wait { until } => {
                let mut wake = until;
                for at in self.wakes.iter().chain(&self.closes_at) {
                    if at.nanos > self.now.nanos && at.nanos < wake.nanos {
                        wake = *at;
                    }
                }
                assert!(wake.nanos >= self.now.nanos);
                self.now = wake;
                Event::Woken
            }
            Action::End(_) => panic!("the write has ended"),
        }
    }

    /// Drive a write to its end.
    fn write(&mut self, deadline: Deadline, body: &[u8], gate: &mut dyn FnMut(Instant) -> Admit) -> Result<(), Error> {
        self.drive(FrameWrite::new(Pace::Gated(deadline)), body, gate)
    }

    /// Do what an attempt names, once; the event, if it was not to ask.
    fn advance(&mut self, attempt: &mut Attempt, body: &[u8]) -> Option<Event> {
        if matches!(attempt.write.action, Action::Ask) {
            assert!(attempt.call.is_some(), "a write without a gate asks none");
            self.asked += 1;
            let next = attempt.ask();
            assert_eq!(next, attempt.write.action);
            return None;
        }
        let event = self.act(&attempt.write, body, &mut |_| panic!("the write's own call is asked"));
        assert!(attempt.write.can_take(&event), "{event:?}");
        attempt.step(event);
        Some(event)
    }

    /// Drive an attempt to its end.
    fn attempt(&mut self, mut attempt: Attempt, body: &[u8]) -> Result<(), Error> {
        while !matches!(attempt.write.action, Action::End(_)) {
            self.advance(&mut attempt, body);
        }
        attempt.end()
    }

    fn drive(&mut self, mut write: FrameWrite, body: &[u8], gate: &mut dyn FnMut(Instant) -> Admit) -> Result<(), Error> {
        let pace = write.pace;
        loop {
            if let Action::End(outcome) = write.action {
                return outcome;
            }
            let event = self.act(&write, body, gate);
            assert!(write.can_take(&event), "{event:?}");
            let next = write.step(event);
            assert_eq!(next, write.action);
            assert_eq!(write.pace, pace, "the deadline moved");
        }
    }
}

#[test]
fn later_releases_the_writer_so_another_write_goes_first() {
    // A placement is held (`Later`) until a cancel has been written; the
    // cancel takes the writer's lock meanwhile.
    let mut world = World::new();
    let mut placing = FrameWrite::new(Pace::Gated(soon(world.now)));
    let mut held = |now: Instant| Admit::Later { retry_at: now.plus(Duration::from_secs(2)) };
    while !matches!(placing.action, Action::Wait { .. }) {
        let event = world.act(&placing, &place(7), &mut held);
        placing.step(event);
    }
    let deadline = soon(world.now);
    assert_eq!(world.write(deadline, &cancel(7), &mut |_| Admit::Write), Ok(()));
    assert_eq!(world.drive(placing, &place(7), &mut |_| Admit::Write), Ok(()));
    assert_eq!(frames(&world.wire), vec![cancel(7), place(7)]);
    assert_eq!(world.now, ms(3000), "held until its retry");
}

#[test]
fn a_call_keeps_one_deadline_across_every_retry() {
    let mut world = World::new();
    let deadline = in_ms(world.now, 300);
    let outcome = world.write(deadline, &place(8), &mut |now| Admit::Later {
        retry_at: now.plus(Duration::from_millis(20)),
    });
    assert_eq!(outcome, expired(Waiting::Slot));
    assert_eq!(world.now, ms(1300), "neither before the deadline nor after it");
    assert!(world.asked > 1);
    assert!(frames(&world.wire).is_empty());
}

#[test]
fn a_refusal_hands_no_byte_to_the_socket() {
    let mut world = World::new();
    let reason = GateReason { code: 1, text: "not now" };
    let deadline = soon(world.now);
    let outcome = world.write(deadline, &place(9), &mut |_| Admit::Refuse(reason));
    assert_eq!(outcome, Err(Error::Refused(Refusal::Gate(reason))));
    assert!(world.wire.is_empty(), "a refused write reached the peer");
}

#[test]
fn a_shutdown_ends_a_wait_at_once() {
    let mut world = World::new();
    world.closes_at = Some(ms(1200));
    let deadline = in_ms(world.now, 60_000);
    let outcome = world.write(deadline, &place(10), &mut |now| Admit::Later {
        retry_at: now.plus(Duration::from_secs(60)),
    });
    assert_eq!(outcome, Err(Error::Closed));
    assert_eq!(world.now, ms(1200));
    assert!(world.wire.is_empty());
}

#[test]
fn the_deadline_covers_the_wait_for_the_writer() {
    let mut world = World::new();
    world.held_until = ms(60_000);
    let deadline = in_ms(world.now, 300);
    let outcome = world.write(deadline, &cancel(11), &mut |_| Admit::Write);
    assert_eq!(outcome, expired(Waiting::Writer));
    assert_eq!(world.now, ms(1300));
    assert_eq!(world.asked, 0, "asked without the writer's lock");
    assert!(world.wire.is_empty(), "the refused cancel reached the peer");
}

#[test]
fn no_wait_is_one_try_now() {
    let mut world = World::new();
    assert_eq!(world.write(Deadline::NoWait, &place(12), &mut |_| Admit::Write), Ok(()));
    assert_eq!(frames(&world.wire), vec![place(12)]);

    // And `Later` is not waited for.
    let mut other = World::new();
    let refused = other.write(Deadline::NoWait, &place(13), &mut |now| Admit::Later {
        retry_at: now.plus(Duration::from_secs(5)),
    });
    assert_eq!(refused, Err(Error::Refused(Refusal::NoSlot)));
    assert_eq!(other.now, ms(1000));
    assert_eq!(other.asked, 1);
    assert!(other.wire.is_empty());
}

#[test]
fn an_expired_deadline_is_never_tried_even_first() {
    let mut world = World::new();
    let outcome = world.write(Deadline::At(ms(999)), &place(14), &mut |_| Admit::Write);
    assert_eq!(outcome, expired(Waiting::Start));
    assert_eq!(world.asked, 0, "an expired write was tried");
    assert!(world.wire.is_empty());
    // The deadline itself is past it too.
    assert_eq!(world.write(Deadline::At(ms(1000)), &place(14), &mut |_| Admit::Write), expired(Waiting::Start));
}

/// What a counting gate has seen of its calls.
#[derive(Default)]
struct Seen {
    begun: usize,
    deadlines: usize,
    wakeups: usize,
    asked: usize,
    ended: usize,
}

/// A gate that answers by how often it was asked, and counts what is done
/// with its calls.
struct Counting {
    deadline: Deadline,
    answer: fn(usize) -> Admit,
    seen: Arc<Mutex<Seen>>,
}

struct CountingCall {
    deadline: Deadline,
    answer: fn(usize) -> Admit,
    seen: Arc<Mutex<Seen>>,
}

impl Counting {
    fn new(deadline: Deadline, answer: fn(usize) -> Admit) -> Counting {
        Counting { deadline, answer, seen: Arc::new(Mutex::new(Seen::default())) }
    }

    fn seen(&self) -> MutexGuard<'_, Seen> {
        self.seen.lock().expect("not poisoned")
    }

    fn begun_and_ended(&self) -> (usize, usize) {
        let seen = self.seen();
        (seen.begun, seen.ended)
    }

    fn begin_write(&self, body: &[u8]) -> Attempt {
        Attempt::begin(Some(self), &describe(body, None, false))
    }
}

impl WriteGate for Counting {
    fn begin(&self, _meta: &OutgoingMeta) -> BoxedCall {
        self.seen().begun += 1;
        BoxedCall(Box::new(CountingCall {
            deadline: self.deadline,
            answer: self.answer,
            seen: Arc::clone(&self.seen),
        }))
    }
}

impl CountingCall {
    fn seen(&self) -> MutexGuard<'_, Seen> {
        self.seen.lock().expect("not poisoned")
    }
}

impl WriteCall for CountingCall {
    fn deadline(&self) -> Deadline {
        self.seen().deadlines += 1;
        self.deadline
    }
    fn ask(&mut self) -> Admit {
        let mut seen = self.seen();
        seen.asked += 1;
        (self.answer)(seen.asked)
    }
    fn wakeup(&self) -> Option<Arc<Notify>> {
        self.seen().wakeups += 1;
        Some(Arc::new(Notify::new()))
    }
}

impl Drop for CountingCall {
    fn drop(&mut self) {
        self.seen().ended += 1;
    }
}

#[test]
fn a_write_is_one_call_asked_again_across_every_retry() {
    // Three `Later`s, then a slot: one call is begun for the write, all four
    // answers come from it, and it ends once, when the write does.
    let mut world = World::new();
    let gate = Counting::new(soon(world.now), |asked| {
        if asked <= 3 {
            Admit::Later { retry_at: ms(1000 + 10 * asked as u64) }
        } else {
            Admit::Write
        }
    });
    let body = b"49\x001\x00";
    let attempt = gate.begin_write(body);
    assert!(attempt.wakeup.is_some());
    assert_eq!(world.attempt(attempt, body), Ok(()));
    assert_eq!(world.now, ms(1030));
    let seen = gate.seen();
    assert_eq!(seen.asked, 4);
    assert_eq!(seen.begun, 1, "a call was begun per answer, not per write");
    assert_eq!((seen.deadlines, seen.wakeups), (1, 1), "asked once, when the write begins");
    assert_eq!(seen.ended, 1);
    assert_eq!(frames(&world.wire).len(), 1);
}

#[test]
fn a_call_ends_once_however_its_write_ends() {
    // Every way a write can end, including its drop while it waits.
    let body = b"49\x001\x00";
    let ends = |gate: &Counting, closes_at: Option<Instant>, how: &str| {
        let mut world = World::new();
        world.closes_at = closes_at;
        let attempt = gate.begin_write(body);
        assert_eq!(gate.begun_and_ended(), (1, 0), "{how}");
        let outcome = world.attempt(attempt, body);
        assert_eq!(gate.begun_and_ended(), (1, 1), "{how}");
        outcome
    };
    let later = |_: usize| Admit::Later { retry_at: ms(61_000) };
    let reason = GateReason { code: 1, text: "test" };

    let written = Counting::new(soon(ms(1000)), |_| Admit::Write);
    assert_eq!(ends(&written, None, "written"), Ok(()));
    let refused = Counting::new(soon(ms(1000)), |_| Admit::Refuse(GateReason { code: 1, text: "test" }));
    assert_eq!(ends(&refused, None, "refused"), Err(Error::Refused(Refusal::Gate(reason))));
    let expired_gate = Counting::new(in_ms(ms(1000), 200), later);
    assert_eq!(ends(&expired_gate, None, "past its deadline"), expired(Waiting::Slot));
    let no_wait = Counting::new(Deadline::NoWait, later);
    assert_eq!(ends(&no_wait, None, "no wait"), Err(Error::Refused(Refusal::NoSlot)));
    let closed = Counting::new(soon(ms(1000)), later);
    assert_eq!(ends(&closed, Some(ms(1100)), "closed while waiting"), Err(Error::Closed));

    let dropped = Counting::new(soon(ms(1000)), later);
    let mut world = World::new();
    let mut attempt = dropped.begin_write(body);
    while !matches!(attempt.write.action, Action::Wait { .. }) {
        world.advance(&mut attempt, body);
    }
    assert_eq!(dropped.begun_and_ended(), (1, 0));
    drop(attempt);
    assert_eq!(dropped.begun_and_ended(), (1, 1), "dropped while waiting");
    assert!(world.wire.is_empty());
}

#[test]
fn a_write_that_was_granted_asks_no_more() {
    // Held back twice, then granted: the grant is the last answer, and only
    // the send follows it.
    let mut world = World::new();
    let gate = Counting::new(soon(world.now), |asked| {
        if asked <= 2 {
            Admit::Later { retry_at: ms(1000 + 10 * asked as u64) }
        } else {
            Admit::Write
        }
    });
    let mut attempt = gate.begin_write(&place(3));
    let mut after_answers = Vec::new();
    let mut last = None;
    while !matches!(attempt.write.action, Action::End(_)) {
        last = world.advance(&mut attempt, &place(3));
        if last.is_none() {
            after_answers.push(attempt.write.action);
        }
    }
    assert_eq!(
        after_answers,
        vec![
            Action::Release { retry_at: ms(1010) },
            Action::Release { retry_at: ms(1020) },
            Action::Send,
        ]
    );
    assert_eq!(last, Some(Event::Sent));
    assert_eq!(gate.seen().asked, 3);
    assert_eq!(attempt.end(), Ok(()));
}

#[test]
fn a_write_without_a_gate_is_a_plain_write_whatever_it_sends() {
    for body in [place(7), cancel(7), b"49\x001\x00".to_vec()] {
        for is_handshake in [false, true] {
            let nothing: Option<&dyn WriteGate> = None;
            let attempt = Attempt::begin(nothing, &describe(&body, None, is_handshake));
            assert!(attempt.call.is_none());
            assert!(attempt.wakeup.is_none());
            assert_eq!(attempt.write, Attempt::plain().write);
            assert_eq!(attempt.write, FrameWrite::new(Pace::Free));
            let mut world = World::new();
            assert_eq!(world.attempt(attempt, &body), Ok(()));
            assert_eq!(world.asked, 0);
            assert_eq!(frames(&world.wire), vec![body.clone()]);
        }
    }
}

#[test]
fn a_plain_write_ends_as_its_last_event_says() {
    let ends = |events: &[Event]| {
        let mut attempt = Attempt::plain();
        for event in events {
            assert!(attempt.write.can_take(event), "{event:?}");
            attempt.step(*event);
        }
        attempt.end()
    };
    let open = Event::Looked { closed: false, now: ms(1000) };
    let locked = Event::Locked { closed: false, now: ms(1000) };
    assert_eq!(ends(&[Event::Looked { closed: true, now: ms(1000) }]), Err(Error::Closed));
    assert_eq!(ends(&[open, Event::Locked { closed: true, now: ms(1000) }]), Err(Error::Closed));
    assert_eq!(ends(&[open, locked, Event::Sent]), Ok(()));
    assert_eq!(ends(&[open, locked, Event::Failed]), Err(Error::Io));
}

#[test]
fn frames_never_mix_on_the_wire() {
    // Two writes take turns, one step each, over one lock: whoever has the
    // lock sends byte after byte while the other waits for it.
    let bodies = [place(1), cancel(2)];
    let mut writes = [Attempt::plain(), Attempt::plain()];
    let mut sent = [0, 0];
    let mut holder: Option<usize> = None;
    let mut wire: Vec<(usize, u8)> = Vec::new();
    while writes.iter().any(|attempt| !matches!(attempt.write.action, Action::End(_))) {
        for (who, attempt) in writes.iter_mut().enumerate() {
            let event = match attempt.write.action {
                Action::Look => Event::Looked { closed: false, now: ms(1000) },
                Action::Lock(_) if holder.is_some() => continue,
                Action::Lock(_) => {
                    holder = Some(who);
                    Event::Locked { closed: false, now: ms(1000) }
                }
                Action::Send if sent[who] < bodies[who].len() => {
                    assert_eq!(holder, Some(who));
                    wire.push((who, bodies[who][sent[who]]));
                    sent[who] += 1;
                    continue;
                }
                Action::Send => Event::Sent,
                _ => continue,
            };
            if let Action::End(outcome) = attempt.step(event) {
                assert_eq!(outcome, Ok(()));
                holder = None;
            }
        }
    }
    let expected: Vec<(usize, u8)> =
        bodies[0].iter().map(|byte| (0, *byte)).chain(bodies[1].iter().map(|byte| (1, *byte))).collect();
    assert_eq!(wire, expected);
}

#[test]
fn a_write_that_does_not_wait_is_refused_as_busy_when_the_writer_is_held() {
    let mut world = World::new();
    world.held_until = ms(60_000);
    let busy = world.write(Deadline::NoWait, b"1\x0011\x00", &mut |_| Admit::Write);
    assert_eq!(busy, Err(Error::Refused(Refusal::Busy)));
    assert_eq!(world.now, ms(1000));
    assert_eq!(world.asked, 0);
}

#[test]
fn an_expired_write_names_the_wait_it_ended_after_a_slot_wait() {
    // First a `Later`; while it waits for a slot, another write takes the
    // writer's lock and keeps it.
    let mut world = World::new();
    world.held_from = ms(1050);
    world.held_until = ms(60_000);
    let deadline = in_ms(world.now, 600);
    let outcome = world.write(deadline, &place(20), &mut |now| Admit::Later {
        retry_at: now.plus(Duration::from_millis(200)),
    });
    assert_eq!(outcome, expired(Waiting::Writer));
    assert_eq!(world.now, ms(1600));
    assert_eq!(world.asked, 1);
}

#[test]
fn an_expired_write_names_the_wait_it_ended_after_a_writer_wait() {
    // First the writer's lock, held by a write that then finishes; then
    // `Later` with no slot before the deadline.
    let mut world = World::new();
    world.held_until = ms(1400);
    let deadline = in_ms(world.now, 1500);
    let outcome = world.write(deadline, &place(21), &mut |now| Admit::Later {
        retry_at: now.plus(Duration::from_secs(60)),
    });
    assert_eq!(outcome, expired(Waiting::Slot));
    assert_eq!(world.now, ms(2500));
}

#[test]
fn a_wake_ends_the_wait_before_retry_at() {
    let mut world = World::new();
    world.wakes = vec![ms(1100)];
    let mut gate = woken(true, 10_000, false);
    let deadline = gate.deadline(world.now);
    let outcome = world.write(deadline, b"49\x001\x00", &mut |now| {
        gate.open = now.nanos >= ms(1100).nanos;
        gate.ask(now).0
    });
    assert_eq!(outcome, Ok(()));
    assert_eq!(world.now, ms(1100), "woken, not left until retry_at");
    assert_eq!(gate.asked, 2, "one Later, then the woken answer");
}

#[test]
fn a_wake_given_before_the_wait_is_not_lost() {
    // The turn is granted while the write is answered: a kept wake ends the
    // wait at once.
    let mut world = World::new();
    let mut gate = woken(true, 10_000, true);
    let mut write = FrameWrite::new(Pace::Gated(gate.deadline(world.now)));
    let mut kept = false;
    while !matches!(write.action, Action::End(_)) {
        let event = if kept && matches!(write.action, Action::Wait { .. }) {
            kept = false;
            Event::Woken
        } else {
            world.act(&write, b"49\x001\x00", &mut |now| {
                let (answer, wake) = gate.ask(now);
                kept = kept || wake;
                answer
            })
        };
        write.step(event);
    }
    assert_eq!(write.action, Action::End(Ok(())));
    assert_eq!(world.now, ms(1000));
    assert_eq!(gate.asked, 2);
}

#[test]
fn without_a_wake_the_write_waits_for_time_alone() {
    let mut world = World::new();
    let mut gate = woken(false, 400, false);
    let deadline = gate.deadline(world.now);
    let outcome = world.write(deadline, b"49\x001\x00", &mut |now| {
        gate.open = now.nanos >= ms(1100).nanos;
        gate.ask(now).0
    });
    assert_eq!(outcome, expired(Waiting::Slot));
    assert_eq!(world.now, ms(1400));
}

#[test]
fn wakes_never_move_the_deadline() {
    let mut world = World::new();
    world.wakes = (0..40).map(|n| ms(1000 + 20 * n)).collect();
    let mut gate = woken(true, 400, false);
    let deadline = gate.deadline(world.now);
    let outcome = world.write(deadline, b"49\x001\x00", &mut |now| gate.ask(now).0);
    assert_eq!(outcome, expired(Waiting::Slot));
    assert_eq!(world.now, ms(1400), "the deadline was extended");
    assert!(gate.asked > 2, "the wakes woke it");
}

#[test]
fn async_close_tests_the_peer_sees_the_connection_end_and_nothing_after_it() {
    let mut world = World::new();
    let mut state = Closing::new();
    assert!(!state.is_closed());
    assert_eq!(world.drive(FrameWrite::new(Pace::Free), b"before", &mut |_| Admit::Write), Ok(()));
    for step in Closing::shutdown() {
        state.take(step);
        assert!(state.is_closed());
    }
    world.closes_at = Some(world.now);
    let after = world.drive(FrameWrite::new(Pace::Free), b"after", &mut |_| Admit::Write);
    assert_eq!(after, Err(Error::Closed));
    assert_eq!(frames(&world.wire), vec![b"before".to_vec()]);
    // Idempotent.
    for step in Closing::shutdown() {
        state.take(step);
        assert!(state.is_closed());
    }
    assert_eq!(Closing::shutdown(), [CloseStep::MarkClosed, CloseStep::ShutDown, CloseStep::WakeWaiting]);
}

#[test]
fn async_close_tests_a_close_does_not_wait_for_a_write_blocked_by_backpressure() {
    // One write is being sent and blocks; another queues on the lock.
    let now = ms(1000);
    let mut blocked = FrameWrite::new(Pace::Free);
    blocked.step(Event::Looked { closed: false, now });
    assert_eq!(blocked.step(Event::Locked { closed: false, now }), Action::Send);
    let mut queued = FrameWrite::new(Pace::Free);
    assert_eq!(queued.step(Event::Looked { closed: false, now }), Action::Lock(Turn::Queue));
    // The close fails the one that had started, which is never "not sent"...
    assert_eq!(blocked.step(Event::Failed), Action::End(Err(Error::Io)));
    // ...and the other gets the lock, and is refused without a byte.
    assert_eq!(queued.step(Event::Locked { closed: true, now }), Action::End(Err(Error::Closed)));
}

#[test]
fn async_close_tests_a_closed_socket_does_not_reconnect() {
    let mut reconnect = Reconnect::new();
    assert_eq!(reconnect.action, ReconnectAction::Look);
    assert_eq!(
        reconnect.step(ReconnectEvent::Looked { closed: true }),
        ReconnectAction::End(Err(Error::Closed))
    );
    assert!(!reconnect.can_take(&ReconnectEvent::Opened));
}

#[test]
fn a_reconnect_that_a_close_overtakes_is_shut_down() {
    let mut reconnect = Reconnect::new();
    assert_eq!(reconnect.step(ReconnectEvent::Looked { closed: false }), ReconnectAction::Open);
    assert_eq!(reconnect.step(ReconnectEvent::Opened), ReconnectAction::Install);
    let mut overtaken = reconnect;
    assert_eq!(overtaken.step(ReconnectEvent::Installed { closed: true }), ReconnectAction::ShutDown);
    assert_eq!(overtaken.step(ReconnectEvent::ShutDown), ReconnectAction::End(Err(Error::Closed)));
    assert_eq!(reconnect.step(ReconnectEvent::Installed { closed: false }), ReconnectAction::End(Ok(())));

    let mut failed = Reconnect::new();
    failed.step(ReconnectEvent::Looked { closed: false });
    let mut poisoned = failed;
    assert_eq!(failed.step(ReconnectEvent::OpenFailed), ReconnectAction::End(Err(Error::Io)));
    poisoned.step(ReconnectEvent::Opened);
    assert_eq!(poisoned.step(ReconnectEvent::InstallFailed), ReconnectAction::End(Err(Error::Poisoned)));
}

#[test]
fn a_close_keeps_back_what_waits_for_the_lock() {
    let mut world = World::new();
    world.held_until = ms(1500);
    world.closes_at = Some(ms(1400));
    let deadline = soon(world.now);
    assert_eq!(world.write(deadline, &place(1), &mut |_| Admit::Write), Err(Error::Closed));
    assert_eq!(world.asked, 0);
    assert!(world.wire.is_empty());
}

#[test]
fn a_deadline_that_passes_with_the_lock_ends_the_write() {
    let now = ms(1000);
    let mut write = FrameWrite::new(Pace::Gated(Deadline::At(ms(1010))));
    assert_eq!(write.step(Event::Looked { closed: false, now }), Action::Lock(Turn::Until(ms(1010))));
    assert_eq!(
        write.step(Event::Locked { closed: false, now: ms(1010) }),
        Action::End(expired(Waiting::Writer))
    );
}

#[test]
fn a_deadline_that_passes_before_the_wait_ends_the_write() {
    let now = ms(1000);
    let mut write = FrameWrite::new(Pace::Gated(Deadline::At(ms(1010))));
    write.step(Event::Looked { closed: false, now });
    write.step(Event::Locked { closed: false, now });
    let later = Admit::Later { retry_at: ms(1005) };
    assert_eq!(write.step(Event::Answered(later)), Action::Release { retry_at: ms(1005) });
    let mut late = write;
    assert_eq!(write.step(Event::Released { now: ms(1001) }), Action::Wait { until: ms(1005) });
    assert_eq!(late.step(Event::Released { now: ms(1010) }), Action::End(expired(Waiting::Slot)));
}

#[test]
fn only_what_was_asked_for_can_come_of_it() {
    let now = ms(1000);
    let look = FrameWrite::new(Pace::Free);
    assert!(look.can_take(&Event::Looked { closed: false, now }));
    for event in [Event::Busy, Event::TimedOut, Event::Woken, Event::Sent, Event::Failed] {
        assert!(!look.can_take(&event));
    }
    let mut queued = look;
    queued.step(Event::Looked { closed: false, now });
    assert!(!queued.can_take(&Event::Busy));
    assert!(!queued.can_take(&Event::TimedOut));
    queued.step(Event::Locked { closed: false, now });
    assert!(queued.can_take(&Event::Sent));
    assert!(queued.can_take(&Event::Failed));
    queued.step(Event::Sent);
    assert_eq!(queued.action, Action::End(Ok(())));
    assert!(!queued.can_take(&Event::Sent));
}
