//! The kernel-assisted barrier: one dedicated system call that forces all
//! threads of the process through a hardware barrier, with no persistent
//! per-call state.
//!
//! The unverified runtime issues the call with the private-expedited
//! command code and hands the raw result to [`barrier`], which decides
//! whether the heavy barrier completed or the process must abort: a
//! failed heavy barrier silently breaks the ordering contract callers
//! rely on, so it is never reported as a recoverable error.

use vstd::prelude::*;

verus! {

/// Command code that issues the private expedited barrier itself.
pub const MEMBARRIER_CMD_PRIVATE_EXPEDITED: i64 = 8;

/// What a heavy barrier call's result means for the process.
#[derive(Clone, Copy, PartialEq, Eq, Structural, Debug)]
pub enum BarrierOutcome {
    /// The system call succeeded: every thread passed the barrier.
    Completed,
    /// The system call failed: the process must abort at once.
    Fatal,
}

/// Digests the raw result of the private-expedited-barrier system call:
/// a negative result is unrecoverable, anything else means every thread
/// of the process has passed the barrier.
pub fn barrier(ret: i64) -> (r: BarrierOutcome)
    ensures
        r is Completed <==> ret >= 0,
{
    if ret >= 0 {
        BarrierOutcome::Completed
    } else {
        BarrierOutcome::Fatal
    }
}

} // verus!
