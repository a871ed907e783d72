//! Points and spans of time, as gates and writes see them.
//!
//! A write never reads a clock: it is told the time with every event, and
//! compares what it is told with the instants its gate gave it.
use vstd::prelude::*;

verus! {

/// How many nanoseconds a millisecond has.
pub const NANOS_PER_MILLI: u64 = 1_000_000;

/// How many nanoseconds a second has.
pub const NANOS_PER_SEC: u64 = 1_000_000_000;

/// A span of time, in nanoseconds.
#[derive(Debug, Clone, Copy, PartialEq, Eq, Structural)]
pub struct Duration {
    pub nanos: u64,
}

impl Duration {
    /// A span of whole milliseconds.
    pub fn from_millis(ms: u64) -> (span: Duration)
        requires
            ms * NANOS_PER_MILLI <= u64::MAX,
        ensures
            span.nanos == ms * NANOS_PER_MILLI,
    {
        Duration { nanos: ms * NANOS_PER_MILLI }
    }

    /// A span of whole seconds.
    pub fn from_secs(secs: u64) -> (span: Duration)
        requires
            secs * NANOS_PER_SEC <= u64::MAX,
        ensures
            span.nanos == secs * NANOS_PER_SEC,
    {
        Duration { nanos: secs * NANOS_PER_SEC }
    }
}

/// A point in time: nanoseconds since the origin of the connection's clock.
#[derive(Debug, Clone, Copy, PartialEq, Eq, Structural)]
pub struct Instant {
    pub nanos: u64,
}

impl Instant {
    /// Whether this instant is `other` or comes after it.
    pub open spec fn reached(self, other: Instant) -> bool {
        self.nanos >= other.nanos
    }

    /// The instant `span` after this one.
    pub fn plus(self, span: Duration) -> (later: Instant)
        requires
            self.nanos + span.nanos <= u64::MAX,
        ensures
            later.nanos == self.nanos + span.nanos,
    {
        Instant { nanos: self.nanos + span.nanos }
    }

    /// Whether this instant is `other` or comes after it.
    pub fn has_reached(self, other: Instant) -> (reached: bool)
        ensures
            reached == self.reached(other),
            reached <==> self.nanos >= other.nanos,
    {
        self.nanos >= other.nanos
    }

    /// The earlier of two instants.
    pub open spec fn earlier(self, other: Instant) -> Instant {
        if self.nanos <= other.nanos {
            self
        } else {
            other
        }
    }

    /// The earlier of two instants.
    pub fn min(self, other: Instant) -> (first: Instant)
        ensures
            first.nanos <= self.nanos,
            first.nanos <= other.nanos,
            first.nanos == self.nanos || first.nanos == other.nanos,
            first == self.earlier(other),
    {
        if self.nanos <= other.nanos {
            self
        } else {
            other
        }
    }
}

/// The earlier of two instants is one of the two, and comes after neither.
pub proof fn the_earlier_is_one_of_the_two(one: Instant, other: Instant)
    ensures
        one.earlier(other).nanos <= one.nanos,
        one.earlier(other).nanos <= other.nanos,
        one.earlier(other).nanos == one.nanos || one.earlier(other).nanos == other.nanos,
{
}

/// An instant is reached at its own nanosecond, and from then on.
pub proof fn an_instant_is_reached_and_stays_reached(now: Instant, at: Instant)
    ensures
        now.reached(at) <==> at.nanos <= now.nanos,
        at.reached(at),
        forall|later: Instant| now.reached(at) && now.nanos <= later.nanos ==> #[trigger]
            later.reached(at),
        forall|sooner: Instant| !now.reached(at) && sooner.nanos <= now.nanos ==> !(
        #[trigger] sooner.reached(at)),
{
}

/// A second is a thousand milliseconds, and a millisecond a million
/// nanoseconds.
pub proof fn a_second_is_a_thousand_milliseconds()
    ensures
        NANOS_PER_SEC == 1000 * NANOS_PER_MILLI,
        NANOS_PER_MILLI == 1000 * 1000,
{
}

/// Whatever [`Instant::min`] returns is one of the two instants, and comes
/// after neither; and whatever [`Instant::has_reached`] returns is true
/// exactly from the other's nanosecond on.
pub proof fn what_comparing_instants_returns(
    one: Instant,
    other: Instant,
    first: Instant,
    reached: bool,
)
    requires
        call_ensures(Instant::min, (one, other), first),
        call_ensures(Instant::has_reached, (one, other), reached),
    ensures
        first.nanos <= one.nanos,
        first.nanos <= other.nanos,
        first.nanos == one.nanos || first.nanos == other.nanos,
        reached <==> other.nanos <= one.nanos,
        reached ==> first.nanos == other.nanos,
{
}

/// A span that is added to an instant is the distance between the two, and a
/// span of seconds or milliseconds is as many nanoseconds as these have.
pub proof fn what_adding_spans_returns(
    start: Instant,
    span: Duration,
    later: Instant,
    count: u64,
    seconds: Duration,
    millis: Duration,
)
    requires
        call_ensures(Instant::plus, (start, span), later),
        call_ensures(Duration::from_secs, (count,), seconds),
        call_ensures(Duration::from_millis, (count,), millis),
    ensures
        later.nanos - start.nanos == span.nanos,
        seconds.nanos == count * 1_000_000_000,
        seconds.nanos == 1000 * millis.nanos,
{
}

} // verus!
