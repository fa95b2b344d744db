//! The fallback mechanism: when no platform mechanism is usable, both
//! barrier levels degrade to an ordinary full fence. This upholds the
//! minimum ordering contract (heavy-heavy and normal-normal pairs) but
//! not the asymmetric cost split.

use vstd::prelude::*;

use crate::fence;

verus! {

/// Issues a light memory barrier for the fast path: an ordinary full
/// fence.
pub fn light() {
    fence::full_fence();
}

/// Issues a heavy memory barrier for the slow path: an ordinary full
/// fence.
pub fn heavy() {
    fence::full_fence();
}

} // verus!
