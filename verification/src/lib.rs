//! Master-side transaction engine for a DNP3-style request/response protocol.
//!
//! The engine drives one task at a time over an unreliable, framed transport:
//! it formats a request stamped with a 4-bit wrapping sequence number,
//! validates each response fragment against the protocol's FIR/FIN/CON/UNS
//! rules, decides when a confirmation must be transmitted, and reports a
//! terminal outcome.  All protocol decisions are made here; the surrounding
//! I/O loop performs the reads, writes and waits that the decisions call for.

pub mod bytes;
pub mod control;
pub mod count;
pub mod cursor;
pub mod error;
pub mod runner;
pub mod sequence;
pub mod task;
pub mod timing;
