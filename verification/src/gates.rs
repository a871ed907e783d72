//! Ready-made deadlines and gates: the answers behind a
//! [`WriteGate`](crate::write_gate::WriteGate), without the sharing between
//! writes that an application adds around them.
use vstd::prelude::*;
use crate::clock::{Duration, Instant, NANOS_PER_MILLI, NANOS_PER_SEC};
use crate::errors::GateReason;
use crate::messages::OutgoingMessages;
use crate::write_gate::{Admit, Deadline, OutgoingMeta};

verus! {

/// How many seconds [`soon`] is.
pub const SOON_SECS: u64 = 10;

/// How many seconds away the retry is that a gate gives a write it holds far
/// beyond any deadline.
pub const HELD_SECS: u64 = 60;

/// Whether an instant that far away can be told.
pub open spec fn can_tell(now: Instant, nanos: int) -> bool {
    now.nanos + nanos <= u64::MAX
}

/// A deadline ten seconds from `now`.
pub fn soon(now: Instant) -> (deadline: Deadline)
    requires
        can_tell(now, SOON_SECS * NANOS_PER_SEC),
    ensures
        deadline == Deadline::At(Instant { nanos: (now.nanos + SOON_SECS * NANOS_PER_SEC) as u64 }),
{
    Deadline::At(now.plus(Duration::from_secs(SOON_SECS)))
}

/// A deadline `ms` milliseconds from `now`.
pub fn in_ms(now: Instant, ms: u64) -> (deadline: Deadline)
    requires
        can_tell(now, ms * NANOS_PER_MILLI),
    ensures
        deadline == Deadline::At(Instant { nanos: (now.nanos + ms * NANOS_PER_MILLI) as u64 }),
{
    Deadline::At(now.plus(Duration::from_millis(ms)))
}

/// A counter after one more, modulo its size.
pub open spec fn next_count(count: usize) -> usize {
    if count == usize::MAX {
        0
    } else {
        (count + 1) as usize
    }
}

/// The answer of a gate that holds a write far beyond any deadline.
pub open spec fn held_answer(now: Instant) -> Admit {
    Admit::Later { retry_at: Instant { nanos: (now.nanos + HELD_SECS * NANOS_PER_SEC) as u64 } }
}

fn held(now: Instant) -> (answer: Admit)
    requires
        can_tell(now, HELD_SECS * NANOS_PER_SEC),
    ensures
        answer == held_answer(now),
{
    Admit::Later { retry_at: now.plus(Duration::from_secs(HELD_SECS)) }
}

/// A gate that answers by message: `Later` for a current-time request, and
/// for a placement while placements are held; for everything else `Write` or
/// `Refuse`, according to a switch. It counts the `Later` answers, so that
/// one can wait for a request to be held.
#[derive(Debug, Clone, Copy, PartialEq, Eq, Structural)]
pub struct Switch {
    /// Whether what is not held is refused.
    pub refuse: bool,
    /// Whether placements are held.
    pub hold_placements: bool,
    /// How many `Later` answers were given, modulo the counter's size.
    pub held: usize,
    /// How far away every write's deadline is.
    pub deadline: Duration,
}

impl Switch {
    /// A switch that holds no placements and has held nothing yet.
    pub fn new(refuse: bool, deadline: Duration) -> (switch: Switch)
        ensures
            switch == (Switch { refuse, hold_placements: false, held: 0, deadline }),
    {
        Switch { refuse, hold_placements: false, held: 0, deadline }
    }

    /// The deadline of a write that begins now.
    pub fn deadline(&self, now: Instant) -> (deadline: Deadline)
        requires
            can_tell(now, self.deadline.nanos as int),
        ensures
            deadline == Deadline::At(
                Instant { nanos: (now.nanos + self.deadline.nanos) as u64 },
            ),
    {
        Deadline::At(now.plus(self.deadline))
    }

    /// Whether the switch holds a write.
    pub open spec fn holds(self, meta: OutgoingMeta) -> bool {
        ||| meta.message == Some(OutgoingMessages::RequestCurrentTime)
        ||| meta.message == Some(OutgoingMessages::PlaceOrder) && self.hold_placements
    }

    /// Why the switch refuses a write.
    pub open spec fn reason() -> GateReason {
        GateReason { code: 1, text: "test" }
    }

    /// What the switch answers a write.
    pub open spec fn answer_to(self, meta: OutgoingMeta, now: Instant) -> Admit {
        if self.holds(meta) {
            held_answer(now)
        } else if self.refuse {
            Admit::Refuse(Switch::reason())
        } else {
            Admit::Write
        }
    }

    /// The switch after it was asked about a write.
    pub open spec fn asked_about(self, meta: OutgoingMeta) -> Switch {
        if self.holds(meta) {
            Switch { held: next_count(self.held), ..self }
        } else {
            self
        }
    }

    /// The answer to a write.
    pub fn ask(&mut self, meta: &OutgoingMeta, now: Instant) -> (answer: Admit)
        requires
            can_tell(now, HELD_SECS * NANOS_PER_SEC),
        ensures
            answer == old(self).answer_to(*meta, now),
            *final(self) == old(self).asked_about(*meta),
            answer == (if old(self).holds(*meta) {
                held_answer(now)
            } else if old(self).refuse {
                Admit::Refuse(Switch::reason())
            } else {
                Admit::Write
            }),
            *final(self) == (Switch {
                held: if old(self).holds(*meta) {
                    if old(self).held == usize::MAX {
                        0
                    } else {
                        (old(self).held + 1) as usize
                    }
                } else {
                    old(self).held
                },
                ..*old(self)
            }),
    {
        let hold: bool = match meta.message {
            Some(OutgoingMessages::RequestCurrentTime) => true,
            Some(OutgoingMessages::PlaceOrder) => self.hold_placements,
            _ => false,
        };
        if hold {
            self.held = if self.held == usize::MAX {
                0
            } else {
                self.held + 1
            };
            return held(now);
        }
        if self.refuse {
            Admit::Refuse(GateReason { code: 1, text: "test" })
        } else {
            Admit::Write
        }
    }

    /// Whether at least `count` `Later` answers were given.
    pub fn has_parked(&self, count: usize) -> (parked: bool)
        ensures
            parked == (self.held >= count),
    {
        self.held >= count
    }
}

/// A gate that holds every write until it is opened, and may wake the write
/// that it holds.
#[derive(Debug, Clone, Copy, PartialEq, Eq, Structural)]
pub struct Woken {
    /// Whether writes go out.
    pub open: bool,
    /// How often it was asked, modulo the counter's size.
    pub asked: usize,
    /// Whether its writes are given a wake-up.
    pub with_wake: bool,
    /// How many milliseconds away every write's deadline is.
    pub deadline_ms: u64,
    /// Whether it opens and wakes from inside its first answer, before the
    /// write waits: the wake must be kept.
    pub wakes_when_asked: bool,
}

/// A gate that is not open yet and has not been asked.
pub fn woken(with_wake: bool, deadline_ms: u64, wakes_when_asked: bool) -> (gate: Woken)
    ensures
        gate == (Woken { open: false, asked: 0, with_wake, deadline_ms, wakes_when_asked }),
{
    Woken { open: false, asked: 0, with_wake, deadline_ms, wakes_when_asked }
}

impl Woken {
    /// The deadline of a write that begins now.
    pub fn deadline(&self, now: Instant) -> (deadline: Deadline)
        requires
            can_tell(now, self.deadline_ms * NANOS_PER_MILLI),
        ensures
            deadline == Deadline::At(
                Instant { nanos: (now.nanos + self.deadline_ms * NANOS_PER_MILLI) as u64 },
            ),
    {
        in_ms(now, self.deadline_ms)
    }

    /// Whether it opens and wakes the write while it answers it.
    pub open spec fn grants_a_turn(self) -> bool {
        !self.open && self.wakes_when_asked && self.asked == 0
    }

    /// What it answers a write.
    pub open spec fn answer_at(self, now: Instant) -> Admit {
        if self.open {
            Admit::Write
        } else {
            held_answer(now)
        }
    }

    /// How it stands after it was asked once more.
    pub open spec fn asked_again(self) -> Woken {
        Woken {
            open: self.open || self.grants_a_turn(),
            asked: next_count(self.asked),
            ..self
        }
    }

    /// The answer to a write, and whether to wake it. A turn that is granted
    /// here is granted while the write still holds the lock and has not begun
    /// to wait.
    pub fn ask(&mut self, now: Instant) -> (answer: (Admit, bool))
        requires
            can_tell(now, HELD_SECS * NANOS_PER_SEC),
        ensures
            answer.0 == (if old(self).open {
                Admit::Write
            } else {
                held_answer(now)
            }),
            answer.0 == old(self).answer_at(now),
            *final(self) == old(self).asked_again(),
            answer.1 == old(self).grants_a_turn(),
            *final(self) == (Woken {
                open: old(self).open || old(self).grants_a_turn(),
                asked: if old(self).asked == usize::MAX {
                    0
                } else {
                    (old(self).asked + 1) as usize
                },
                ..*old(self)
            }),
    {
        let before: usize = self.asked;
        self.asked = if before == usize::MAX {
            0
        } else {
            before + 1
        };
        if self.open {
            return (Admit::Write, false);
        }
        let grant: bool = self.wakes_when_asked && before == 0;
        if grant {
            self.open = true;
        }
        (held(now), grant)
    }
}

/// A gate driven by two functions of the message, counting its calls modulo
/// the counters' size.
pub struct Scripted<D, A> {
    pub deadline: D,
    pub answer: A,
    pub deadlines: usize,
    pub asked: usize,
}

impl<D: Fn(&OutgoingMeta) -> Deadline, A: Fn(&OutgoingMeta) -> Admit> Scripted<D, A> {
    /// A gate that has not been asked yet.
    pub fn new(deadline: D, answer: A) -> (gate: Scripted<D, A>)
        ensures
            gate == (Scripted { deadline, answer, deadlines: 0, asked: 0 }),
    {
        Scripted { deadline, answer, deadlines: 0, asked: 0 }
    }

    /// The deadline of a write.
    pub fn deadline(&mut self, meta: &OutgoingMeta) -> (deadline: Deadline)
        requires
            call_requires(old(self).deadline, (meta,)),
        ensures
            call_ensures(old(self).deadline, (meta,), deadline),
            final(self).deadline == old(self).deadline,
            final(self).answer == old(self).answer,
            final(self).asked == old(self).asked,
            final(self).deadlines == next_count(old(self).deadlines),
            final(self).deadlines == (if old(self).deadlines == usize::MAX {
                0
            } else {
                old(self).deadlines + 1
            }),
    {
        self.deadlines = if self.deadlines == usize::MAX {
            0
        } else {
            self.deadlines + 1
        };
        (self.deadline)(meta)
    }

    /// The answer to a write.
    pub fn ask(&mut self, meta: &OutgoingMeta) -> (answer: Admit)
        requires
            call_requires(old(self).answer, (meta,)),
        ensures
            call_ensures(old(self).answer, (meta,), answer),
            final(self).deadline == old(self).deadline,
            final(self).answer == old(self).answer,
            final(self).deadlines == old(self).deadlines,
            final(self).asked == next_count(old(self).asked),
            final(self).asked == (if old(self).asked == usize::MAX {
                0
            } else {
                old(self).asked + 1
            }),
    {
        self.asked = if self.asked == usize::MAX {
            0
        } else {
            self.asked + 1
        };
        (self.answer)(meta)
    }
}

/// How many calls to a gate were begun, and how many of them have ended.
#[derive(Debug, Clone, Copy, PartialEq, Eq, Structural)]
pub struct Calls {
    begun: usize,
    ended: usize,
}

impl Calls {
    /// How many calls were begun.
    pub closed spec fn calls_begun(self) -> usize {
        self.begun
    }

    /// How many calls have ended.
    pub closed spec fn calls_ended(self) -> usize {
        self.ended
    }

    /// No call ends that was not begun.
    pub open spec fn wf(self) -> bool {
        self.calls_ended() <= self.calls_begun()
    }

    /// No call has begun yet.
    pub fn new() -> (calls: Calls)
        ensures
            calls.wf(),
            calls.calls_begun() == 0,
            calls.calls_ended() == 0,
    {
        Calls { begun: 0, ended: 0 }
    }

    /// How many calls were begun.
    pub fn begun(&self) -> (begun: usize)
        ensures
            begun == self.calls_begun(),
    {
        self.begun
    }

    /// How many calls have ended.
    pub fn ended(&self) -> (ended: usize)
        ensures
            ended == self.calls_ended(),
    {
        self.ended
    }

    /// Count the beginning of a call.
    pub fn begin(&mut self)
        requires
            old(self).wf(),
            old(self).calls_begun() < usize::MAX,
        ensures
            final(self).wf(),
            final(self).calls_begun() == old(self).calls_begun() + 1,
            final(self).calls_ended() == old(self).calls_ended(),
    {
        self.begun = self.begun + 1;
    }

    /// Count the end of a call that had begun.
    pub fn end(&mut self)
        requires
            old(self).wf(),
            old(self).calls_ended() < old(self).calls_begun(),
        ensures
            final(self).wf(),
            final(self).calls_begun() == old(self).calls_begun(),
            final(self).calls_ended() == old(self).calls_ended() + 1,
    {
        self.ended = self.ended + 1;
    }
}

/// An instant can be told exactly if it is no later than the last one that
/// there is.
pub proof fn an_instant_can_be_told_up_to_the_last(now: Instant, nanos: int)
    ensures
        can_tell(now, nanos) <==> now.nanos + nanos <= u64::MAX,
{
}

/// Soon is ten seconds, and a write that is held far beyond any deadline is
/// held for a minute.
pub proof fn a_held_write_is_held_for_a_minute(now: Instant)
    requires
        now.nanos + 60_000_000_000 <= u64::MAX,
    ensures
        held_answer(now) matches Admit::Later { retry_at } && retry_at.nanos == now.nanos
            + 60_000_000_000,
        SOON_SECS * NANOS_PER_SEC == 10_000_000_000,
        HELD_SECS * NANOS_PER_SEC == 60_000_000_000,
        NANOS_PER_MILLI == 1_000_000,
{
}

/// A switch holds every current-time request and, while it holds placements,
/// every placement; nothing else, and never by the ids of a write, by its
/// part in the handshake, or by what was asked before.
pub proof fn a_switch_holds_by_message_alone(
    switch: Switch,
    other: Switch,
    meta: OutgoingMeta,
    same: OutgoingMeta,
)
    requires
        meta.message == same.message,
        switch.hold_placements == other.hold_placements,
    ensures
        switch.holds(meta) == other.holds(same),
        meta.message == Some(OutgoingMessages::RequestCurrentTime) ==> switch.holds(meta),
        meta.message == Some(OutgoingMessages::PlaceOrder) ==> (switch.holds(meta)
            <==> switch.hold_placements),
        switch.holds(meta) ==> meta.message == Some(OutgoingMessages::RequestCurrentTime)
            || meta.message == Some(OutgoingMessages::PlaceOrder),
        Switch::reason().code == 1,
        Switch::reason().text == "test",
{
}

/// A gate grants a turn from inside an answer only at its first, only while
/// it is not open, and always then, if it is to wake when asked.
pub proof fn a_turn_is_granted_at_the_first_answer(gate: Woken)
    ensures
        gate.grants_a_turn() ==> gate.wakes_when_asked && gate.asked == 0 && !gate.open,
        gate.wakes_when_asked && gate.asked == 0 && !gate.open ==> gate.grants_a_turn(),
{
}

/// A counter goes up by one, and begins again after the last number that
/// there is.
pub proof fn a_counter_goes_up_by_one(count: usize)
    ensures
        count < usize::MAX ==> next_count(count) == count + 1,
        count == usize::MAX ==> next_count(count) == 0,
{
}

/// A switch holds a current-time request, and a placement while placements
/// are held, for a minute, whether it refuses or not. Everything else it
/// refuses with its one reason while it refuses, and lets go while it does
/// not. It counts what it holds, and nothing else of it changes.
pub proof fn a_switch_answers_by_message(switch: Switch, meta: OutgoingMeta, now: Instant)
    requires
        now.nanos + 60_000_000_000 <= u64::MAX,
    ensures
        ({
            let answer = switch.answer_to(meta, now);
            let after = switch.asked_about(meta);
            let held = meta.message == Some(OutgoingMessages::RequestCurrentTime) || meta.message
                == Some(OutgoingMessages::PlaceOrder) && switch.hold_placements;
            &&& answer is Later <==> held
            &&& answer matches Admit::Later { retry_at } ==> retry_at.nanos == now.nanos
                + 60_000_000_000
            &&& !held ==> (answer is Refuse <==> switch.refuse)
            &&& !held ==> (answer is Write <==> !switch.refuse)
            &&& answer matches Admit::Refuse(reason) ==> reason.code == 1 && reason.text == "test"
            &&& after.refuse == switch.refuse
            &&& after.hold_placements == switch.hold_placements
            &&& after.deadline == switch.deadline
            &&& !held ==> after.held == switch.held
            &&& held && switch.held < usize::MAX ==> after.held == switch.held + 1
            &&& held && switch.held == usize::MAX ==> after.held == 0
        }),
{
}

/// A gate that is not open holds every write for a minute, and one that is
/// open lets every write go and stays open. It opens by itself only when it
/// grants a turn, and then the next answer lets the write go. Each answer
/// counts, and nothing else of it changes.
pub proof fn a_gate_that_was_opened_stays_open(gate: Woken, now: Instant)
    requires
        now.nanos + 60_000_000_000 <= u64::MAX,
    ensures
        ({
            let answer = gate.answer_at(now);
            let after = gate.asked_again();
            &&& answer is Write <==> gate.open
            &&& !gate.open ==> (answer matches Admit::Later { retry_at } && retry_at.nanos
                == now.nanos + 60_000_000_000)
            &&& gate.open ==> after.open
            &&& !gate.open ==> (after.open <==> gate.wakes_when_asked && gate.asked == 0)
            &&& after.open ==> after.answer_at(now) is Write && !after.grants_a_turn()
            &&& gate.asked < usize::MAX ==> after.asked == gate.asked + 1
            &&& gate.asked == usize::MAX ==> after.asked == 0
            &&& after.with_wake == gate.with_wake
            &&& after.deadline_ms == gate.deadline_ms
            &&& after.wakes_when_asked == gate.wakes_when_asked
        }),
{
}

/// Whatever the deadlines return is that far from now: [`soon`] ten seconds,
/// [`in_ms`] as many milliseconds as it was given, and a switch or a gate as
/// long as each was made with.
pub proof fn a_deadline_is_as_far_away_as_it_was_asked_for(
    now: Instant,
    ms: u64,
    far: Deadline,
    near: Deadline,
    switch: Switch,
    of_switch: Deadline,
    gate: Woken,
    of_gate: Deadline,
)
    requires
        now.nanos + 10_000_000_000 <= u64::MAX,
        now.nanos + ms * 1_000_000 <= u64::MAX,
        now.nanos + switch.deadline.nanos <= u64::MAX,
        now.nanos + gate.deadline_ms * 1_000_000 <= u64::MAX,
        call_ensures(soon, (now,), far),
        call_ensures(in_ms, (now, ms), near),
        call_ensures(Switch::deadline, (&switch, now), of_switch),
        call_ensures(Woken::deadline, (&gate, now), of_gate),
    ensures
        far matches Deadline::At(at) && at.nanos == now.nanos + 10_000_000_000,
        near matches Deadline::At(at) && at.nanos == now.nanos + ms * 1_000_000,
        of_switch matches Deadline::At(at) && at.nanos == now.nanos + switch.deadline.nanos,
        of_gate matches Deadline::At(at) && at.nanos == now.nanos + gate.deadline_ms * 1_000_000,
{
}

/// Whatever [`Switch::new`] and [`woken`] return has held and been asked
/// nothing, and keeps what it was made with; and [`Switch::has_parked`]
/// compares what was held.
pub proof fn a_new_gate_has_been_asked_nothing(
    refuse: bool,
    deadline: Duration,
    switch: Switch,
    with_wake: bool,
    deadline_ms: u64,
    wakes_when_asked: bool,
    gate: Woken,
    other: Switch,
    count: usize,
    parked: bool,
)
    requires
        call_ensures(Switch::new, (refuse, deadline), switch),
        call_ensures(woken, (with_wake, deadline_ms, wakes_when_asked), gate),
        call_ensures(Switch::has_parked, (&other, count), parked),
    ensures
        switch.refuse == refuse,
        switch.deadline == deadline,
        !switch.hold_placements,
        switch.held == 0,
        !gate.open,
        gate.asked == 0,
        gate.with_wake == with_wake,
        gate.deadline_ms == deadline_ms,
        gate.wakes_when_asked == wakes_when_asked,
        parked <==> count <= other.held,
{
}

} // verus!
