//! The page-protection barrier: a fallback that gets its process-wide
//! effect from the TLB-shootdown interrupt the OS issues when one shared
//! page's protection is dropped from read+write to no-access.
//!
//! The mechanism owns one lazily-created, pinned page and a paired mutex
//! for the life of the process. A heavy call performs, under the mutex:
//! protect the page read+write, write to it (so the OS cannot elide the
//! upcoming shootdown as a no-op), protect it no-access, and unlock. The
//! OS calls themselves are made by the unverified runtime; [`Barrier`] is
//! the verified model of the page, the mutex, and every in-flight heavy
//! call, and its [`Barrier::step`] contract pins down both the exact
//! toggle sequence and the mutual-exclusion invariant it preserves.

use vstd::prelude::*;

use crate::strategy::Arch;

verus! {

/// Only the x86 family documents the TLB-shootdown side effect the
/// mechanism relies on.
pub open spec fn arch_has_shootdown(arch: Arch) -> bool {
    arch is X86 || arch is X86_64
}

/// Whether the page-protection mechanism is usable on this architecture.
pub fn is_supported(arch: Arch) -> (r: bool)
    ensures
        r == arch_has_shootdown(arch),
{
    match arch {
        Arch::X86 | Arch::X86_64 => true,
        _ => false,
    }
}

/// Digests the result of the "page size" query: only a positive size is
/// usable.
pub fn page_size_ok(ret: i64) -> (r: bool)
    ensures
        r == (ret > 0),
{
    ret > 0
}

/// The freshly mapped page is usable exactly when the mapping call
/// succeeded and handed back a page-aligned address.
pub fn mapping_ok(map_failed: bool, addr: u64, page_size: u64) -> (r: bool)
    requires
        page_size > 0,
    ensures
        r == (!map_failed && addr % page_size == 0),
{
    !map_failed && addr % page_size == 0
}

/// Digests the result of a protection-change or mutex call, which report
/// success as zero. A nonzero result is process-fatal for this mechanism.
pub fn os_call_ok(ret: i32) -> (r: bool)
    ensures
        r == (ret == 0),
{
    ret == 0
}

/// The access protection of the shared page.
#[derive(Clone, Copy, PartialEq, Eq, Structural, Debug)]
pub enum PageProt {
    /// No access: the page's resting state.
    NoAccess,
    /// Read + write: held only mid-toggle, under the mutex.
    ReadWrite,
}

/// The shared barrier page and its paired mutex.
#[derive(Clone, Copy, PartialEq, Eq, Structural, Debug)]
pub struct Page {
    /// Current access protection.
    pub prot: PageProt,
    /// The word a heavy call writes to dirty the page; each call bumps it
    /// by one, wrapping.
    pub word: u64,
    /// Whether the page is pinned in physical memory; pinning happens at
    /// creation and must survive for the life of the process, else the
    /// page could be unmapped between the two protection changes.
    pub pinned: bool,
    /// Whether the paired mutex is held.
    pub locked: bool,
}

/// How far one heavy call has come through the toggle sequence.
#[derive(Clone, Copy, PartialEq, Eq, Structural, Debug)]
pub enum Phase {
    /// Not inside a heavy call.
    Idle,
    /// Holds the mutex; has not changed the protection yet.
    Holding,
    /// Has set the page read+write.
    Opened,
    /// Has written to the page.
    Dirtied,
    /// Has set the page back to no-access; still holds the mutex.
    Closed,
}

/// One OS call of the toggle sequence.
#[derive(Clone, Copy, PartialEq, Eq, Structural, Debug)]
pub enum PageOp {
    /// Lock the paired mutex.
    LockMutex,
    /// Set the page's protection to read+write.
    ProtectReadWrite,
    /// Write to the page so the OS marks it dirty.
    WritePage,
    /// Set the page's protection to no-access; this transition is the
    /// barrier side effect.
    ProtectNoAccess,
    /// Unlock the paired mutex.
    UnlockMutex,
}

/// The OS call a caller in the given phase makes next.
pub open spec fn op_of(p: Phase) -> PageOp {
    match p {
        Phase::Idle => PageOp::LockMutex,
        Phase::Holding => PageOp::ProtectReadWrite,
        Phase::Opened => PageOp::WritePage,
        Phase::Dirtied => PageOp::ProtectNoAccess,
        Phase::Closed => PageOp::UnlockMutex,
    }
}

/// A caller in this phase is inside the critical section (holds the
/// mutex).
pub open spec fn in_critical(p: Phase) -> bool {
    !(p is Idle)
}

/// A caller in this phase has the page in its read+write state.
pub open spec fn page_open(p: Phase) -> bool {
    p is Opened || p is Dirtied
}

/// The dirtying write bumps the page's word by one, wrapping.
pub open spec fn bumped(w: u64) -> u64 {
    if w == u64::MAX {
        0u64
    } else {
        (w + 1) as u64
    }
}

/// The verified model of the page-protection mechanism: the shared page
/// plus the phase of every potential caller (one slot per thread).
pub struct Barrier {
    /// The shared page and its mutex.
    pub page: Page,
    /// Phase of each caller's in-flight heavy call, `Idle` when none.
    pub calls: Vec<Phase>,
}

impl Barrier {
    /// The invariant every step preserves: the page stays pinned; the
    /// mutex is held exactly when some caller is mid-sequence; at most
    /// one caller is mid-sequence at any instant; and the page is
    /// read+write exactly while that caller stands between the two
    /// protection changes.
    pub open spec fn wf(self) -> bool {
        &&& self.page.pinned
        &&& (self.page.locked <==> exists|i: int|
            0 <= i < self.calls@.len() && in_critical(#[trigger] self.calls@[i]))
        &&& (forall|i: int, j: int|
            0 <= i < self.calls@.len() && 0 <= j < self.calls@.len() && in_critical(
                #[trigger] self.calls@[i],
            ) && in_critical(#[trigger] self.calls@[j]) ==> i == j)
        &&& (self.page.prot is ReadWrite <==> exists|i: int|
            0 <= i < self.calls@.len() && page_open(#[trigger] self.calls@[i]))
    }

    /// A fresh mechanism: page mapped no-access, pinned, mutex free, and
    /// room for `callers` concurrent callers, all idle.
    pub fn new(callers: usize) -> (r: Barrier)
        ensures
            r.wf(),
            r.page == (Page { prot: PageProt::NoAccess, word: 0u64, pinned: true, locked: false }),
            r.calls@.len() == callers,
            forall|i: int| 0 <= i < callers ==> #[trigger] r.calls@[i] is Idle,
    {
        let mut calls: Vec<Phase> = Vec::new();
        let mut i: usize = 0;
        while i < callers
            invariant
                i <= callers,
                calls@.len() == i,
                forall|k: int| 0 <= k < i ==> #[trigger] calls@[k] is Idle,
            decreases callers - i,
        {
            calls.push(Phase::Idle);
            i = i + 1;
        }
        let page = Page { prot: PageProt::NoAccess, word: 0u64, pinned: true, locked: false };
        let r = Barrier { page, calls };
        r
    }

    /// The OS call caller `t` makes next.
    pub fn next_op(&self, t: usize) -> (r: PageOp)
        requires
            t < self.calls@.len(),
        ensures
            r == op_of(self.calls@[t as int]),
    {
        match self.calls[t] {
            Phase::Idle => PageOp::LockMutex,
            Phase::Holding => PageOp::ProtectReadWrite,
            Phase::Opened => PageOp::WritePage,
            Phase::Dirtied => PageOp::ProtectNoAccess,
            Phase::Closed => PageOp::UnlockMutex,
        }
    }

    /// Caller `t` attempts its next OS call. The call happens — and the
    /// model advances — unless `t` is trying to lock a mutex another
    /// caller holds, in which case nothing changes (`t` blocks). The
    /// contract gives the exact effect of every phase; in particular a
    /// caller that acquires the free mutex is guaranteed to find the page
    /// in its no-access resting state — no caller ever observes
    /// read+write leftovers from another caller's toggle.
    pub fn step(&mut self, t: usize) -> (progressed: bool)
        requires
            old(self).wf(),
            t < old(self).calls@.len(),
        ensures
            final(self).wf(),
            final(self).calls@.len() == old(self).calls@.len(),
            forall|j: int|
                0 <= j < old(self).calls@.len() && j != t
                    ==> final(self).calls@[j] == old(self).calls@[j],
            old(self).calls@[t as int] is Idle && old(self).page.locked
                ==> !progressed && *final(self) == *old(self),
            old(self).calls@[t as int] is Idle && !old(self).page.locked
                ==> progressed && final(self).calls@[t as int] is Holding
                    && final(self).page == (Page { locked: true, ..old(self).page })
                    && old(self).page.prot is NoAccess,
            old(self).calls@[t as int] is Holding
                ==> progressed && final(self).calls@[t as int] is Opened
                    && final(self).page == (Page { prot: PageProt::ReadWrite, ..old(self).page }),
            old(self).calls@[t as int] is Opened
                ==> progressed && final(self).calls@[t as int] is Dirtied
                    && final(self).page == (Page { word: bumped(old(self).page.word), ..old(self).page }),
            old(self).calls@[t as int] is Dirtied
                ==> progressed && final(self).calls@[t as int] is Closed
                    && final(self).page == (Page { prot: PageProt::NoAccess, ..old(self).page }),
            old(self).calls@[t as int] is Closed
                ==> progressed && final(self).calls@[t as int] is Idle
                    && final(self).page == (Page { locked: false, ..old(self).page }),
    {
        let phase = self.calls[t];
        match phase {
            Phase::Idle => {
                if self.page.locked {
                    false
                } else {
                    proof {
                        lemma_lock_free_page_clean(*self);
                    }
                    self.page.locked = true;
                    self.calls.set(t, Phase::Holding);
                    proof {
                        self.lemma_wf_after_solo_step(*old(self), t);
                    }
                    true
                }
            },
            Phase::Holding => {
                self.page.prot = PageProt::ReadWrite;
                self.calls.set(t, Phase::Opened);
                proof {
                    self.lemma_wf_after_solo_step(*old(self), t);
                }
                true
            },
            Phase::Opened => {
                self.page.word = if self.page.word == u64::MAX {
                    0u64
                } else {
                    self.page.word + 1
                };
                self.calls.set(t, Phase::Dirtied);
                proof {
                    self.lemma_wf_after_solo_step(*old(self), t);
                }
                true
            },
            Phase::Dirtied => {
                self.page.prot = PageProt::NoAccess;
                self.calls.set(t, Phase::Closed);
                proof {
                    self.lemma_wf_after_solo_step(*old(self), t);
                }
                true
            },
            Phase::Closed => {
                self.page.locked = false;
                self.calls.set(t, Phase::Idle);
                proof {
                    self.lemma_wf_after_solo_step(*old(self), t);
                }
                true
            },
        }
    }

    /// Re-establishes the invariant after one caller moved through one
    /// transition of the toggle sequence while every other caller stood
    /// still.
    proof fn lemma_wf_after_solo_step(self, pre: Barrier, t: usize)
        requires
            pre.wf(),
            t < pre.calls@.len(),
            self.calls@ == pre.calls@.update(t as int, self.calls@[t as int]),
            self.page.pinned == pre.page.pinned,
            // the transition taken is one arm of the sequence
            pre.calls@[t as int] is Idle ==> !pre.page.locked && self.calls@[t as int] is Holding
                && self.page == (Page { locked: true, ..pre.page }),
            pre.calls@[t as int] is Holding ==> self.calls@[t as int] is Opened && self.page == (
            Page { prot: PageProt::ReadWrite, ..pre.page }),
            pre.calls@[t as int] is Opened ==> self.calls@[t as int] is Dirtied && self.page == (
            Page { word: bumped(pre.page.word), ..pre.page }),
            pre.calls@[t as int] is Dirtied ==> self.calls@[t as int] is Closed && self.page == (
            Page { prot: PageProt::NoAccess, ..pre.page }),
            pre.calls@[t as int] is Closed ==> self.calls@[t as int] is Idle && self.page == (Page {
                locked: false,
                ..pre.page
            }),
        ensures
            self.wf(),
    {
        let ti = t as int;
        let n = pre.calls@.len();
        assert(self.calls@.len() == n);
        if pre.calls@[ti] is Idle {
            // the mutex was free, so nobody was mid-sequence
            assert forall|i: int| 0 <= i < n && i != ti implies !in_critical(
                #[trigger] self.calls@[i],
            ) by {
                if in_critical(pre.calls@[i]) {
                    assert(pre.page.locked);
                }
            }
            assert(in_critical(self.calls@[ti]));
            assert(!page_open(self.calls@[ti]));
            assert(self.page.prot is ReadWrite <==> exists|i: int|
                0 <= i < n && page_open(#[trigger] self.calls@[i])) by {
                if pre.page.prot is ReadWrite {
                    let w = choose|i: int| 0 <= i < n && page_open(#[trigger] pre.calls@[i]);
                    assert(in_critical(pre.calls@[w]));
                    assert(pre.page.locked);
                }
            }
        } else {
            // t was mid-sequence, hence the unique critical caller
            assert(in_critical(pre.calls@[ti]));
            assert(pre.page.locked);
            assert forall|i: int| 0 <= i < n && i != ti implies !in_critical(
                #[trigger] self.calls@[i],
            ) by {
                if in_critical(pre.calls@[i]) {
                    assert(i == ti);
                }
            }
            if pre.calls@[ti] is Closed {
                // leaving the critical section: nobody holds the mutex now
                assert(!in_critical(self.calls@[ti]));
                assert(pre.page.prot is NoAccess) by {
                    if pre.page.prot is ReadWrite {
                        let w = choose|i: int| 0 <= i < n && page_open(#[trigger] pre.calls@[i]);
                        assert(in_critical(pre.calls@[w]));
                        assert(w == ti);
                    }
                }
            } else {
                assert(in_critical(self.calls@[ti]));
            }
            // the page is read+write exactly while t stands between the
            // two protection changes
            assert(self.page.prot is ReadWrite <==> exists|i: int|
                0 <= i < n && page_open(#[trigger] self.calls@[i])) by {
                if page_open(self.calls@[ti]) {
                    assert(self.page.prot is ReadWrite);
                }
                if self.page.prot is ReadWrite {
                    if !page_open(self.calls@[ti]) {
                        assert(pre.page.prot is ReadWrite);
                        let w = choose|i: int| 0 <= i < n && page_open(#[trigger] pre.calls@[i]);
                        assert(in_critical(pre.calls@[w]));
                        assert(w == ti);
                        assert(false);
                    }
                }
            }
        }
    }

    /// One whole heavy call by caller `t`, from lock to unlock. It bumps
    /// the page's word exactly once, leaves the protection no-access, the
    /// mutex free, the pin intact, and every other caller untouched.
    pub fn barrier(&mut self, t: usize)
        requires
            old(self).wf(),
            t < old(self).calls@.len(),
            old(self).calls@[t as int] is Idle,
            !old(self).page.locked,
        ensures
            final(self).wf(),
            final(self).calls@.len() == old(self).calls@.len(),
            forall|j: int|
                0 <= j < old(self).calls@.len() && j != t
                    ==> final(self).calls@[j] == old(self).calls@[j],
            final(self).calls@[t as int] is Idle,
            old(self).page.prot is NoAccess,
            final(self).page == (Page { word: bumped(old(self).page.word), ..old(self).page }),
    {
        let _ = self.step(t);  // lock the mutex
        let _ = self.step(t);  // protect read+write
        let _ = self.step(t);  // dirtying write
        let _ = self.step(t);  // protect no-access
        let _ = self.step(t);  // unlock the mutex
    }
}

/// Law: whenever the mutex is free, the page rests in its no-access
/// state — a caller that acquires the mutex can never observe read+write
/// leftovers from another caller's toggle.
pub proof fn lemma_lock_free_page_clean(b: Barrier)
    requires
        b.wf(),
        !b.page.locked,
    ensures
        b.page.prot is NoAccess,
{
    if b.page.prot is ReadWrite {
        let w = choose|i: int| 0 <= i < b.calls@.len() && page_open(#[trigger] b.calls@[i]);
        assert(in_critical(b.calls@[w]));
        assert(b.page.locked);
    }
}

} // verus!
