//! A lightweight actor runtime core for single-core, embedded-style targets.
//!
//! Each actor owns private state, processes messages one at a time from a
//! bounded mailbox, and is reachable only through reference-counted handles.
//! This crate verifies the runtime's decision logic: the bounded
//! most-recent-first mailbox, the handle lifecycle that triggers shutdown when
//! the last strong handle is released, and the run-loop state machine.
//! Platform hosting (execution contexts, blocking waits, typed dispatch
//! through trait objects) lives outside the verified core and drives these
//! types from plain calls.

use vstd::prelude::*;

pub mod actor;
pub mod queue;
pub mod runloop;
pub mod task;

verus! {

/// Handle to the platform's hardware random-number source.
///
/// Reading the entropy register is a platform call; the arithmetic that
/// widens two 32-bit draws into one 64-bit value is verified here.
pub struct EspRand;

impl EspRand {
    /// Combines two 32-bit draws into one 64-bit value, high word first.
    pub fn next_u64_from(hi: u32, lo: u32) -> (r: u64)
        ensures
            r == hi as u64 * 0x1_0000_0000 + lo as u64,
    {
        let r: u64 = ((hi as u64) << 32) | (lo as u64);
        proof {
            assert(((hi as u64) << 32u64) | (lo as u64) == (hi as u64) * 0x1_0000_0000 + (lo as u64))
                by (bit_vector);
        }
        r
    }
}

} // verus!
