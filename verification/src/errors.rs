//! How a write or a reconnect fails.
use vstd::prelude::*;

verus! {

/// Why a gate refused a write, in its own terms.
#[derive(Debug, Clone, Copy, PartialEq, Eq)]
pub struct GateReason {
    /// The number that stands for this reason.
    pub code: i32,
    /// The reason in words.
    pub text: &'static str,
}

/// What a write was last waiting for.
#[derive(Debug, Clone, Copy, PartialEq, Eq, Structural)]
pub enum Waiting {
    /// Nothing yet: the write had not begun to wait.
    Start,
    /// The connection's writer lock.
    Writer,
    /// A slot from its gate.
    Slot,
}

/// Why a write was refused. No byte of a refused write reached the socket.
#[derive(Debug, Clone, Copy, PartialEq, Eq)]
pub enum Refusal {
    /// Its gate said no.
    Gate(GateReason),
    /// The write does not wait, and the writer lock was taken.
    Busy,
    /// The write does not wait, and its gate had no slot for it now.
    NoSlot,
    /// The deadline passed.
    Expired {
        /// The wait that the deadline ended.
        waiting_for: Waiting,
    },
}

/// Why an operation on the socket failed.
#[derive(Debug, Clone, Copy, PartialEq, Eq)]
pub enum Error {
    /// The socket is closed. Nothing was sent.
    Closed,
    /// The write was refused. Nothing was sent.
    Refused(Refusal),
    /// The operating system reported an error. Part of a frame may have gone
    /// out.
    Io,
    /// A lock was poisoned by a panic elsewhere.
    Poisoned,
}

} // verus!
