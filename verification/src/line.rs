//! Many writes on one socket.
//!
//! Writes come and go, and take their steps in any order. What they share is
//! the writer's lock, which one write holds at a time, whether the socket is
//! closed, and the wire that their bytes go out on. The laws speak of every
//! course that this can take, a write that is dropped halfway included.
use vstd::prelude::*;
use crate::errors::Error;
use crate::write::{Action, Event, Pace};
use crate::write_laws::{
    a_write_ends_as_its_last_event_says, holds_lock, possible,
    the_lock_is_never_held_across_a_wait, write_after,
};

verus! {

/// One write on the socket, as far as it has come.
pub struct Writing {
    /// The write's gate and deadline.
    pub pace: Pace,
    /// The bytes that it has to send.
    pub frame: Seq<u8>,
    /// The events that it has taken.
    pub history: Seq<Event>,
    /// How many bytes of the frame it has put on the wire.
    pub put: int,
    /// Where on the wire the first of them stands.
    pub start: int,
    /// Whether it was dropped before it ended.
    pub dropped: bool,
    /// How many calls to its gate were begun for it.
    pub calls_begun: int,
    /// How many of these calls have ended.
    pub calls_ended: int,
}

impl Writing {
    /// What the write has to have done next.
    pub open spec fn action(self) -> Action {
        write_after(self.pace, self.history).action
    }

    /// Whether the write goes on.
    pub open spec fn is_live(self) -> bool {
        !self.dropped && self.action() !is End
    }

    /// Whether the write holds the lock. One that has ended or was dropped
    /// does not.
    pub open spec fn holds(self) -> bool {
        self.is_live() && holds_lock(self.history)
    }

    /// How many calls a write has: one if it has a gate, else none.
    pub open spec fn calls_due(self) -> int {
        if self.pace is Gated {
            1
        } else {
            0
        }
    }
}

/// A step that one write takes, or the socket.
pub enum Step {
    /// A write begins.
    Begin {
        write: int,
        pace: Pace,
        frame: Seq<u8>,
    },
    /// A write takes an event.
    Take {
        write: int,
        event: Event,
    },
    /// A write that sends puts its next byte on the wire.
    Put {
        write: int,
    },
    /// A write is dropped.
    Drop {
        write: int,
    },
    /// The socket is closed.
    Close,
}

/// The socket and its writes.
pub struct Line {
    pub writes: Map<int, Writing>,
    /// The bytes that went out, each with the write that put it there.
    pub wire: Seq<(int, u8)>,
    pub closed: bool,
}

/// A socket that nothing was written on.
pub open spec fn fresh() -> Line {
    Line { writes: Map::empty(), wire: Seq::empty(), closed: false }
}

impl Line {
    /// Whether a step can be taken. Whoever looks at the socket sees whether
    /// it is closed; the lock is taken only when no other write holds it; and
    /// a frame counts as sent only once all its bytes are on the wire.
    pub open spec fn allows(self, step: Step) -> bool {
        match step {
            Step::Begin { write, .. } => !self.writes.contains_key(write),
            Step::Take { write, event } => {
                let writing = self.writes[write];
                &&& self.writes.contains_key(write)
                &&& writing.is_live()
                &&& write_after(writing.pace, writing.history).expects(event)
                &&& match event {
                    Event::Looked { closed, .. } => closed == self.closed,
                    Event::Locked { closed, .. } => closed == self.closed && self.lock_is_free(),
                    Event::Sent => writing.put == writing.frame.len(),
                    _ => true,
                }
            },
            Step::Put { write } => {
                let writing = self.writes[write];
                &&& self.writes.contains_key(write)
                &&& writing.is_live()
                &&& writing.action() is Send
                &&& writing.put < writing.frame.len()
            },
            Step::Drop { write } => self.writes.contains_key(write) && self.writes[write].is_live(),
            Step::Close => true,
        }
    }

    /// Whether no write holds the lock.
    pub open spec fn lock_is_free(self) -> bool {
        forall|other: int|
            #![trigger self.writes[other]]
            self.writes.contains_key(other) ==> !self.writes[other].holds()
    }

    /// What a step leads to. A call is begun with its write, and ends when the
    /// write does, or is dropped with it.
    pub open spec fn after(self, step: Step) -> Line {
        match step {
            Step::Begin { write, pace, frame } => {
                let begun = Writing {
                    pace,
                    frame,
                    history: Seq::empty(),
                    put: 0,
                    start: 0,
                    dropped: false,
                    calls_begun: 0,
                    calls_ended: 0,
                };
                Line {
                    writes: self.writes.insert(
                        write,
                        Writing { calls_begun: begun.calls_due(), ..begun },
                    ),
                    ..self
                }
            },
            Step::Take { write, event } => {
                let writing = self.writes[write];
                let taken = Writing { history: writing.history.push(event), ..writing };
                let ended = if taken.action() is End {
                    writing.calls_due()
                } else {
                    0
                };
                Line {
                    writes: self.writes.insert(
                        write,
                        Writing { calls_ended: writing.calls_ended + ended, ..taken },
                    ),
                    ..self
                }
            },
            Step::Put { write } => {
                let writing = self.writes[write];
                let more = Writing {
                    put: writing.put + 1,
                    start: if writing.put == 0 {
                        self.wire.len() as int
                    } else {
                        writing.start
                    },
                    ..writing
                };
                Line {
                    writes: self.writes.insert(write, more),
                    wire: self.wire.push((write, writing.frame[writing.put])),
                    ..self
                }
            },
            Step::Drop { write } => {
                let writing = self.writes[write];
                let gone = Writing {
                    dropped: true,
                    calls_ended: writing.calls_ended + writing.calls_due(),
                    ..writing
                };
                Line { writes: self.writes.insert(write, gone), ..self }
            },
            Step::Close => Line { closed: true, ..self },
        }
    }

    /// Whether exactly the first `put` bytes of a write's frame are on the
    /// wire, in order, and nothing stands between them.
    pub open spec fn carries(self, write: int) -> bool {
        let writing = self.writes[write];
        &&& 0 <= writing.put <= writing.frame.len()
        &&& writing.put > 0 ==> 0 <= writing.start && writing.start + writing.put
            <= self.wire.len()
        &&& forall|i: int|
            0 <= i < self.wire.len() ==> {
                if writing.start <= i < writing.start + writing.put {
                    #[trigger] self.wire[i] == (write, writing.frame[i - writing.start])
                } else {
                    self.wire[i].0 != write
                }
            }
    }
}

/// The socket and its writes after `steps`.
pub open spec fn line_after(steps: Seq<Step>) -> Line
    decreases steps.len(),
{
    if steps.len() == 0 {
        fresh()
    } else {
        line_after(steps.drop_last()).after(steps.last())
    }
}

/// Whether `steps` can be taken on a socket, one after the other.
pub open spec fn can_happen(steps: Seq<Step>) -> bool
    decreases steps.len(),
{
    steps.len() > 0 ==> {
        &&& can_happen(steps.drop_last())
        &&& line_after(steps.drop_last()).allows(steps.last())
    }
}

/// What holds of a write at every time.
spec fn is_sound(line: Line, write: int) -> bool {
    let writing = line.writes[write];
    &&& possible(writing.pace, writing.history)
    &&& line.carries(write)
    &&& writing.put > 0 ==> {
        ||| writing.action() is Send
        ||| writing.action() == Action::End(Ok(()))
        ||| writing.action() == Action::End(Err(Error::Io))
    }
    &&& writing.action() == Action::End(Ok(())) ==> writing.put == writing.frame.len()
    &&& writing.is_live() && writing.put > 0 ==> writing.start + writing.put == line.wire.len()
    &&& writing.calls_begun == writing.calls_due()
    &&& writing.calls_ended == (if writing.is_live() {
        0
    } else {
        writing.calls_due()
    })
}

/// What holds of a socket and its writes at every time.
spec fn is_line(line: Line) -> bool {
    &&& forall|write: int| #[trigger]
        line.writes.contains_key(write) ==> is_sound(line, write)
    &&& forall|i: int|
        0 <= i < line.wire.len() ==> line.writes.contains_key((#[trigger] line.wire[i]).0)
    &&& forall|one: int, other: int|
        #![trigger line.writes[one], line.writes[other]]
        line.writes.contains_key(one) && line.writes.contains_key(other)
            && line.writes[one].holds() && line.writes[other].holds() ==> one == other
}

/// Every step keeps the line as it has to be.
proof fn a_step_keeps_the_line(line: Line, step: Step)
    requires
        is_line(line),
        line.allows(step),
    ensures
        is_line(line.after(step)),
{
    let after = line.after(step);
    assert forall|write: int| #[trigger] after.writes.contains_key(write) implies is_sound(
        after,
        write,
    ) by {
        assert(line.writes.contains_key(write) ==> is_sound(line, write));
        match step {
            Step::Take { write: taker, event } if taker == write => {
                let writing = line.writes[write];
                let taken = after.writes[write];
                assert(taken.history.drop_last() == writing.history);
                assert(taken.history.last() == event);
                assert(after.carries(write));
            },
            Step::Put { write: putter } => {
                let sender = line.writes[putter];
                assert(is_sound(line, putter));
                the_lock_is_never_held_across_a_wait(sender.pace, sender.history);
                if putter != write && line.writes[write].is_live() && line.writes[write].put > 0 {
                    let other = line.writes[write];
                    the_lock_is_never_held_across_a_wait(other.pace, other.history);
                    assert(line.writes[putter].holds() && line.writes[write].holds());
                }
                assert(after.carries(write)) by {
                    assert forall|i: int| 0 <= i < after.wire.len() implies {
                        if after.writes[write].start <= i < after.writes[write].start
                            + after.writes[write].put {
                            #[trigger] after.wire[i] == (
                                write,
                                after.writes[write].frame[i - after.writes[write].start],
                            )
                        } else {
                            after.wire[i].0 != write
                        }
                    } by {
                        if i < line.wire.len() {
                            assert(after.wire[i] == line.wire[i]);
                        }
                    }
                }
            },
            Step::Begin { write: newcomer, .. } if newcomer == write => {
                assert(after.carries(write)) by {
                    assert forall|i: int| 0 <= i < line.wire.len() implies (
                    #[trigger] line.wire[i]).0 != write by {
                        assert(line.writes.contains_key(line.wire[i].0));
                    }
                }
            },
            _ => {
                assert(after.carries(write));
            },
        }
    }
    assert forall|i: int| 0 <= i < after.wire.len() implies after.writes.contains_key(
        (#[trigger] after.wire[i]).0,
    ) by {
        if i < line.wire.len() {
            assert(after.wire[i] == line.wire[i]);
            assert(line.writes.contains_key(line.wire[i].0));
        }
    }
    assert forall|one: int, other: int|
        #![trigger after.writes[one], after.writes[other]]
        after.writes.contains_key(one) && after.writes.contains_key(other)
            && after.writes[one].holds() && after.writes[other].holds() implies one == other by {
        if one != other {
            assert(line.writes.contains_key(one) ==> is_sound(line, one));
            assert(line.writes.contains_key(other) ==> is_sound(line, other));
            match step {
                Step::Take { write, event } => {
                    let writing = line.writes[write];
                    assert(writing.history.push(event).drop_last() == writing.history);
                    assert(line.writes[one] == line.writes[one]);
                    assert(line.writes[other] == line.writes[other]);
                },
                Step::Begin { write, .. } => {
                    assert(!after.writes[write].holds());
                },
                _ => {
                    assert(line.writes[one].holds() && line.writes[other].holds());
                },
            }
        }
    }
}

/// Whatever happens on a socket, its line is as it has to be.
proof fn a_line_is_always_sound(steps: Seq<Step>)
    requires
        can_happen(steps),
    ensures
        is_line(line_after(steps)),
    decreases steps.len(),
{
    if steps.len() > 0 {
        a_line_is_always_sound(steps.drop_last());
        a_step_keeps_the_line(line_after(steps.drop_last()), steps.last());
    }
}

/// What a write on a socket goes through is a history that a write can have,
/// so that all that holds of one write holds of it.
pub proof fn a_write_on_a_line_is_possible(steps: Seq<Step>, write: int)
    requires
        can_happen(steps),
        line_after(steps).writes.contains_key(write),
    ensures
        possible(line_after(steps).writes[write].pace, line_after(steps).writes[write].history),
{
    a_line_is_always_sound(steps);
    assert(is_sound(line_after(steps), write));
}

/// Frames never mix: whatever a write has put on the wire is the beginning of
/// its frame, in order, with no byte of another write in between.
pub proof fn a_frame_stands_alone_on_the_wire(steps: Seq<Step>, write: int)
    requires
        can_happen(steps),
        line_after(steps).writes.contains_key(write),
    ensures
        line_after(steps).carries(write),
{
    a_line_is_always_sound(steps);
    assert(is_sound(line_after(steps), write));
}

/// A write that ended well is on the wire, all of its frame and nothing else
/// of it, in order, with no byte of another write in between.
pub proof fn a_success_is_on_the_wire_whole(steps: Seq<Step>, write: int)
    requires
        can_happen(steps),
        line_after(steps).writes.contains_key(write),
        line_after(steps).writes[write].action() == Action::End(Ok(())),
    ensures
        ({
            let line = line_after(steps);
            let writing = line.writes[write];
            let end = writing.start + writing.frame.len();
            &&& writing.frame.len() > 0 ==> 0 <= writing.start && end <= line.wire.len()
            &&& forall|i: int|
                writing.start <= i < end ==> #[trigger] line.wire[i] == (
                    write,
                    writing.frame[i - writing.start],
                )
            &&& forall|i: int|
                0 <= i < line.wire.len() && !(writing.start <= i < end) ==> (
                #[trigger] line.wire[i]).0 != write
        }),
{
    a_frame_stands_alone_on_the_wire(steps, write);
    a_line_is_always_sound(steps);
    assert(is_sound(line_after(steps), write));
}

/// A write that was refused, or that found the socket closed, has put no byte
/// on the wire; and it finds the socket closed only if it is.
pub proof fn a_write_that_did_not_start_left_no_byte(steps: Seq<Step>, write: int)
    requires
        can_happen(steps),
        line_after(steps).writes.contains_key(write),
        line_after(steps).writes[write].action() matches Action::End(Err(error)) && (error is Refused
            || error is Closed),
    ensures
        forall|i: int|
            0 <= i < line_after(steps).wire.len() ==> (#[trigger] line_after(steps).wire[i]).0
                != write,
        line_after(steps).writes[write].action() == Action::End(Err(Error::Closed)) ==> line_after(
            steps,
        ).closed,
{
    a_line_is_always_sound(steps);
    assert(is_sound(line_after(steps), write));
    only_a_close_closes(steps, write);
}

/// A write that ended as closed was on a socket that was closed.
proof fn only_a_close_closes(steps: Seq<Step>, write: int)
    requires
        can_happen(steps),
        line_after(steps).writes.contains_key(write),
    ensures
        line_after(steps).writes[write].action() == Action::End(Err(Error::Closed)) ==> line_after(
            steps,
        ).closed,
    decreases steps.len(),
{
    if steps.len() > 0 {
        let before = line_after(steps.drop_last());
        let after = line_after(steps);
        if before.writes.contains_key(write) {
            only_a_close_closes(steps.drop_last(), write);
        }
        if let Step::Take { write: taker, event } = steps.last() {
            if taker == write {
                let writing = before.writes[write];
                a_line_is_always_sound(steps);
                assert(is_sound(after, write));
                a_write_ends_as_its_last_event_says(writing.pace, after.writes[write].history);
                assert(after.writes[write].history.last() == event);
            }
        }
    }
}

/// A write that looks at a closed socket, before it takes the lock or under
/// it, ends as closed there and then.
pub proof fn a_look_at_a_closed_socket_ends_the_write(steps: Seq<Step>, write: int, event: Event)
    requires
        can_happen(steps),
        line_after(steps).closed,
        line_after(steps).allows(Step::Take { write, event }),
        event is Looked || event is Locked,
    ensures
        line_after(steps).after(Step::Take { write, event }).writes[write].action() == Action::End(
            Err(Error::Closed),
        ),
{
    let history = line_after(steps).writes[write].history;
    assert(history.push(event).drop_last() == history);
    assert(history.push(event).last() == event);
}

/// A write fails halfway only with the error of the socket, never as refused
/// or closed: once a byte of it is on the wire, the write goes on sending
/// until it ends well, with the whole frame sent, or with that error, or is
/// dropped.
pub proof fn a_write_that_started_never_ends_as_not_sent(steps: Seq<Step>, write: int)
    requires
        can_happen(steps),
        line_after(steps).writes.contains_key(write),
        line_after(steps).writes[write].put > 0,
    ensures
        ({
            ||| line_after(steps).writes[write].action() is Send
            ||| line_after(steps).writes[write].action() == Action::End(Ok(()))
            ||| line_after(steps).writes[write].action() == Action::End(Err(Error::Io))
        }),
{
    a_line_is_always_sound(steps);
    assert(is_sound(line_after(steps), write));
}

/// Two writes never hold the lock at once, so no two send at once.
pub proof fn one_write_sends_at_a_time(steps: Seq<Step>, one: int, other: int)
    requires
        can_happen(steps),
        line_after(steps).writes.contains_key(one),
        line_after(steps).writes.contains_key(other),
        one != other,
    ensures
        ({
            let first = line_after(steps).writes[one];
            let second = line_after(steps).writes[other];
            &&& !(first.holds() && second.holds())
            &&& !(first.is_live() && first.action() is Send && second.is_live() && second.action()
                is Send)
        }),
{
    let line = line_after(steps);
    a_line_is_always_sound(steps);
    assert(is_sound(line, one) && is_sound(line, other));
    the_lock_is_never_held_across_a_wait(line.writes[one].pace, line.writes[one].history);
    the_lock_is_never_held_across_a_wait(line.writes[other].pace, line.writes[other].history);
}

/// A write with a gate begins one call to it, and the call ends once, however
/// the write ends: sent, failed, refused, closed, or dropped halfway. As long
/// as the write goes on, so does its call. A write without a gate has none.
pub proof fn a_call_ends_once_however_its_write_ends(steps: Seq<Step>, write: int)
    requires
        can_happen(steps),
        line_after(steps).writes.contains_key(write),
    ensures
        ({
            let writing = line_after(steps).writes[write];
            &&& writing.pace is Gated ==> {
                &&& writing.calls_begun == 1
                &&& writing.calls_ended == (if writing.is_live() {
                    0int
                } else {
                    1int
                })
            }
            &&& writing.pace is Free ==> writing.calls_begun == 0 && writing.calls_ended == 0
        }),
{
    a_line_is_always_sound(steps);
    assert(is_sound(line_after(steps), write));
}

/// After a close, a write that had not started, because it waits for the lock
/// or for a slot, or has not begun yet, puts no byte on the wire. Started
/// means that the write has the lock and has found the socket open under it.
pub proof fn after_a_close_nothing_starts(steps: Seq<Step>, n: int, write: int)
    requires
        can_happen(steps),
        0 <= n <= steps.len(),
        line_after(steps.take(n)).closed,
        line_after(steps.take(n)).writes.contains_key(write) ==> {
            let writing = line_after(steps.take(n)).writes[write];
            writing.put == 0 && writing.action() !is Ask && writing.action() !is Send
        },
    ensures
        line_after(steps).closed,
        line_after(steps).writes.contains_key(write) ==> {
            let writing = line_after(steps).writes[write];
            writing.put == 0 && writing.action() !is Ask && writing.action() !is Send
        },
        forall|i: int|
            0 <= i < line_after(steps).wire.len() ==> (#[trigger] line_after(steps).wire[i]).0
                != write,
    decreases steps.len(),
{
    let after = line_after(steps);
    a_line_is_always_sound(steps);
    if n == steps.len() {
        assert(steps.take(n) == steps);
    } else {
        let before = line_after(steps.drop_last());
        assert(steps.drop_last().take(n) == steps.take(n));
        after_a_close_nothing_starts(steps.drop_last(), n, write);
        if let Step::Take { write: taker, event } = steps.last() {
            if taker == write {
                assert(after.writes[write].history.drop_last() == before.writes[write].history);
                assert(after.writes[write].history.last() == event);
            }
        }
    }
    if after.writes.contains_key(write) {
        assert(is_sound(after, write));
    } else {
        assert forall|i: int| 0 <= i < after.wire.len() implies (#[trigger] after.wire[i]).0
            != write by {
            assert(after.writes.contains_key(after.wire[i].0));
        }
    }
}

} // verus!
