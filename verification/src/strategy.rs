//! The closed set of barrier mechanisms and the actions they dispatch to.

use vstd::prelude::*;

verus! {

/// The barrier mechanism a process uses, computed once per process by the
/// capability probe and immutable afterwards.
#[derive(Clone, Copy, PartialEq, Eq, Structural, Debug)]
pub enum Strategy {
    /// A dedicated "private expedited barrier" system call.
    KernelAssisted,
    /// Toggling the access protections of one shared page; the resulting
    /// TLB-shootdown interrupt is the barrier side effect.
    PageProtection,
    /// One dedicated OS API that flushes every processor's write buffer.
    WriteBufferFlush,
    /// Forcing each live thread of the process through a barrier by
    /// querying its register state.
    ThreadInspection,
    /// An ordinary full fence for both barrier levels.
    Fallback,
}

/// The kind of fence instruction a barrier level issues locally.
#[derive(Clone, Copy, PartialEq, Eq, Structural, Debug)]
pub enum FenceKind {
    /// A compiler-level reordering fence; no instruction is emitted.
    Compiler,
    /// An ordinary sequentially-consistent full fence instruction.
    Full,
}

/// What one heavy barrier call must do for the selected mechanism. All but
/// `FenceIssued` name an OS interaction the unverified runtime performs.
#[derive(Clone, Copy, PartialEq, Eq, Structural, Debug)]
pub enum HeavyAction {
    /// Issue the private-expedited-barrier system call.
    CallMembarrier,
    /// Run the page-protection toggle sequence on the shared page.
    TogglePageProtection,
    /// Invoke the write-buffer-flush OS API.
    FlushWriteBuffers,
    /// Enumerate live threads and query each one's state.
    InspectThreads,
    /// Nothing remains to be done: a full fence was already issued.
    FenceIssued,
}

/// The host instruction-set families the mechanisms distinguish.
#[allow(non_camel_case_types)]
#[derive(Clone, Copy, PartialEq, Eq, Structural, Debug)]
pub enum Arch {
    X86,
    X86_64,
    Aarch64,
    Other,
}

/// The operating-system families with distinct mechanisms.
#[derive(Clone, Copy, PartialEq, Eq, Structural, Debug)]
pub enum Platform {
    Linux,
    Windows,
    MacOs,
    Ios,
    Other,
}

/// The fence a light barrier issues: only the fallback pays for a full
/// fence; every platform mechanism carries the ordering itself, so the
/// light side needs only a compiler fence.
pub open spec fn light_fence_of(s: Strategy) -> FenceKind {
    if s is Fallback {
        FenceKind::Full
    } else {
        FenceKind::Compiler
    }
}

/// The OS action a heavy barrier performs for each mechanism.
pub open spec fn heavy_action_of(s: Strategy) -> HeavyAction {
    match s {
        Strategy::KernelAssisted => HeavyAction::CallMembarrier,
        Strategy::PageProtection => HeavyAction::TogglePageProtection,
        Strategy::WriteBufferFlush => HeavyAction::FlushWriteBuffers,
        Strategy::ThreadInspection => HeavyAction::InspectThreads,
        Strategy::Fallback => HeavyAction::FenceIssued,
    }
}

} // verus!
