//! Process-wide memory barrier.
//!
//! A process-wide memory barrier is an asymmetric synchronization primitive:
//! a cheap *light* barrier on the fast path is paired with an expensive
//! *heavy* barrier on the slow path that forces every thread of the process
//! to observe a consistent view of memory. Each supported operating system
//! delivers the heavy barrier through a different mechanism (a dedicated
//! system call, a page-protection toggle whose TLB shootdown doubles as a
//! barrier, a write-buffer flush API, or an enumeration of live threads).
//!
//! This crate verifies the mechanism-independent core: which mechanism the
//! capability probe selects, which fence or OS action each barrier level
//! must perform for the selected mechanism, the exact protect/dirty/protect
//! sequence of the page-protection mechanism and its mutual-exclusion
//! invariant, and the resource accounting of the thread-inspection
//! mechanism. The raw system calls themselves are performed by a thin
//! unverified runtime that drives these verified state machines.

use vstd::prelude::*;

pub mod cache;
pub mod fallback;
mod fence;
pub mod inspect;
pub mod kernel;
pub mod mprotect;
pub mod probe;
pub mod strategy;

use crate::strategy::{light_fence_of, heavy_action_of, FenceKind, HeavyAction, Strategy};

verus! {

/// The public barrier façade: holds the mechanism the capability probe
/// selected for this process and dispatches each barrier level to it
/// with one comparison. The process-wide instance lives in a write-once
/// cell ([`cache::SelectionCell`]) owned by the embedding runtime.
pub struct Membarrier {
    /// The selected mechanism, immutable for the life of the process.
    pub strategy: Strategy,
}

impl Membarrier {
    /// A façade over the given selected mechanism.
    pub fn new(strategy: Strategy) -> (r: Membarrier)
        ensures
            r.strategy == strategy,
    {
        Membarrier { strategy }
    }

    /// The selected mechanism.
    pub fn strategy(&self) -> (r: Strategy)
        ensures
            r == self.strategy,
    {
        self.strategy
    }

    /// Issues a light memory barrier for the fast path and reports which
    /// fence it was: a compiler fence under every platform mechanism
    /// (the paired heavy call carries the ordering), an ordinary full
    /// fence under the fallback.
    pub fn light(&self) -> (r: FenceKind)
        ensures
            r == light_fence_of(self.strategy),
    {
        match self.strategy {
            Strategy::Fallback => {
                fence::full_fence();
                FenceKind::Full
            },
            _ => {
                fence::compiler_fence();
                FenceKind::Compiler
            },
        }
    }

    /// Issues a heavy memory barrier for the slow path, as far as it can
    /// be issued without an OS call, and returns what completes it:
    /// under the fallback a full fence is issued here and nothing
    /// remains, under every other mechanism the returned action names
    /// the OS interaction the embedding runtime must perform.
    pub fn heavy(&self) -> (r: HeavyAction)
        ensures
            r == heavy_action_of(self.strategy),
    {
        match self.strategy {
            Strategy::KernelAssisted => HeavyAction::CallMembarrier,
            Strategy::PageProtection => HeavyAction::TogglePageProtection,
            Strategy::WriteBufferFlush => HeavyAction::FlushWriteBuffers,
            Strategy::ThreadInspection => HeavyAction::InspectThreads,
            Strategy::Fallback => {
                fence::full_fence();
                HeavyAction::FenceIssued
            },
        }
    }
}

/// Law: when no platform mechanism is available, both barrier levels
/// are an ordinary full fence — the light side issues one, and the
/// heavy side issues one with no OS action left to perform.
pub proof fn lemma_fallback_is_ordinary_fence()
    ensures
        light_fence_of(Strategy::Fallback) is Full,
        heavy_action_of(Strategy::Fallback) is FenceIssued,
        forall|s: Strategy| !(s is Fallback) ==> light_fence_of(s) is Compiler,
{
}

} // verus!
