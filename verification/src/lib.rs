//! Transport layer beneath a lightweight local RPC protocol: listening
//! endpoints, accepted duplex connections, blocking byte-stream read/write,
//! and a cooperative shutdown flag, unified over two native I/O models
//! (readiness polling and completion I/O).
//!
//! The decision logic of the transport — how the quit flag, the readiness
//! or completion events, and the native result codes determine each call's
//! outcome and the next state of a listener or connection — lives here and
//! is verified. The native calls themselves (sockets, pipes, waits) are
//! performed by the embedding program, which feeds their results to the
//! step functions of this crate.

use vstd::prelude::*;

pub mod address;
pub mod completion;
pub mod error;
pub mod polling;
pub mod quit;

verus! {

/// Cumulative byte counter that never wraps: additions clamp at `u64::MAX`.
pub open spec fn sat_add64(a: u64, b: u64) -> u64 {
    if a + b > u64::MAX {
        u64::MAX
    } else {
        (a + b) as u64
    }
}

/// Exec counterpart of [`sat_add64`].
pub fn add_saturating(a: u64, b: u64) -> (r: u64)
    ensures
        r == sat_add64(a, b),
{
    if a > u64::MAX - b {
        u64::MAX
    } else {
        a + b
    }
}

} // verus!
