//! The process-lifetime cache of the selected mechanism: a write-once,
//! read-many cell. The capability probe runs at most once per process;
//! whichever caller computes a selection first is the one every caller
//! observes, and the value never changes afterwards.

use vstd::prelude::*;

use crate::strategy::Strategy;

verus! {

/// The cached value after an initialization attempt that computed `s`:
/// the first value written sticks.
pub open spec fn cached_after(v: Option<Strategy>, s: Strategy) -> Option<Strategy> {
    match v {
        Some(w) => Some(w),
        None => Some(s),
    }
}

/// What an initialization attempt that computed `s` hands back to its
/// caller.
pub open spec fn cached_result(v: Option<Strategy>, s: Strategy) -> Strategy {
    match v {
        Some(w) => w,
        None => s,
    }
}

/// A write-once cell for the selected mechanism.
pub struct SelectionCell {
    /// The cached selection, `None` until the first initialization.
    pub value: Option<Strategy>,
}

impl SelectionCell {
    /// An empty cell: no probe has run yet.
    pub fn new() -> (r: SelectionCell)
        ensures
            r.value is None,
    {
        SelectionCell { value: None }
    }

    /// Hands back the cached selection, caching `probed` first if the
    /// cell was empty: the first caller's probe result wins, later
    /// results are discarded.
    pub fn get_or_init(&mut self, probed: Strategy) -> (r: Strategy)
        ensures
            final(self).value == cached_after(old(self).value, probed),
            r == cached_result(old(self).value, probed),
    {
        match self.value {
            Some(w) => w,
            None => {
                self.value = Some(probed);
                probed
            },
        }
    }

    /// The cached selection, if any caller has initialized the cell.
    pub fn get(&self) -> (r: Option<Strategy>)
        ensures
            r == self.value,
    {
        self.value
    }
}

/// Law: the probe is idempotent once cached. After one lookup has
/// initialized the cell, every later lookup observes the same mechanism,
/// whatever its own probe run would have computed.
pub proof fn lemma_cached_selection_stable(v: Option<Strategy>, s1: Strategy, s2: Strategy)
    ensures
        cached_result(cached_after(v, s1), s2) == cached_result(v, s1),
        cached_after(cached_after(v, s1), s2) == cached_after(v, s1),
{
}

} // verus!
