//! A non-blocking named-pipe I/O engine that bridges a completion-based
//! asynchronous model (operations are submitted and the system later reports
//! that they finished) to a readiness-based model (callers poll "is this
//! ready" and then act synchronously).
//!
//! The engine itself is a passive state machine: every public operation
//! either acts on state that is already available or tells its driver which
//! asynchronous request to submit next, and the driver feeds the submission
//! and completion outcomes back in as plain values.

use vstd::prelude::*;

pub mod pipe;
pub mod pool;
pub mod state;

verus! {

/// The errors surfaced by the pipe engine.
#[derive(Clone, Copy, Debug, PartialEq, Eq, Structural)]
pub enum Error {
    /// The operation cannot complete now; retry after a readiness event.
    WouldBlock,
    /// The remote end closed the pipe.
    BrokenPipe,
    /// The pipe is already associated with a (different) registry.
    AlreadyExists,
    /// The pipe is not associated with the given registry.
    NotFound,
    /// Any other system error, carried by its raw code.
    Os(u32),
}

/// The error returned whenever an operation cannot proceed yet and the
/// caller should wait for a readiness notification.
pub fn would_block() -> (r: Error)
    ensures
        r == Error::WouldBlock,
{
    Error::WouldBlock
}

} // verus!
