//! The two fence instructions the mechanisms issue locally.

use vstd::prelude::*;

verus! {

/// Relies on core::sync::atomic::fence: issues a sequentially consistent
/// full memory fence on the calling thread and returns.
#[verifier::external_body]
pub(crate) fn full_fence() {
    core::sync::atomic::fence(core::sync::atomic::Ordering::SeqCst);
}

/// Relies on core::sync::atomic::compiler_fence: restricts compiler
/// reordering across itself, emits no instruction, and returns.
#[verifier::external_body]
pub(crate) fn compiler_fence() {
    core::sync::atomic::compiler_fence(core::sync::atomic::Ordering::SeqCst);
}

} // verus!
