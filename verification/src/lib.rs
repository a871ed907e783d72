//! The write path of a TWS connection: what a write asks of its gate, and what
//! it does with the answer.

pub mod bytes;
pub mod clock;
pub mod closing;
pub mod connection;
pub mod decimal;
pub mod errors;
pub mod framing;
pub mod gates;
pub mod line;
pub mod messages;
pub mod proto;
pub mod registry;
pub mod requests;
pub mod write;
pub mod write_gate;
pub mod write_laws;
