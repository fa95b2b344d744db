//! The thread-state-inspection barrier: enumerate every live thread of
//! the process and force each one through a barrier by making the kernel
//! capture its register state, then release every OS resource acquired
//! on the way.
//!
//! The enumeration hands back one handle per thread plus one buffer that
//! holds the list itself; each handle's reference must be released and
//! the buffer freed before the heavy call returns, whatever happened per
//! thread. The kernel calls are made by the unverified runtime;
//! [`Inspection`] is the verified model of one heavy call's progress and
//! of the resources still outstanding, and [`flush_process_write_buffers`]
//! is the verified driver that walks it to completion.

use vstd::prelude::*;

use crate::strategy::Arch;

verus! {

/// The inspection mechanism is implementable only for the two
/// instruction-set families whose thread state the queries cover.
pub open spec fn arch_supports_inspection(arch: Arch) -> bool {
    arch is X86_64 || arch is Aarch64
}

/// Whether the thread-inspection mechanism is usable on this
/// architecture.
pub fn is_supported(arch: Arch) -> (r: bool)
    ensures
        r == arch_supports_inspection(arch),
{
    match arch {
        Arch::X86_64 | Arch::Aarch64 => true,
        _ => false,
    }
}

/// Digests a kernel call's result, which reports success as zero. Any
/// other result is process-fatal: the "every thread passed a barrier"
/// invariant cannot be partially satisfied.
pub fn kern_call_ok(ret: i32) -> (r: bool)
    ensures
        r == (ret == 0),
{
    ret == 0
}

/// Which state query forces a thread through the barrier: the cheap
/// pointer-values query where the host OS supports it, else the full
/// architecture-specific state structure.
#[derive(Clone, Copy, PartialEq, Eq, Structural, Debug)]
pub enum ThreadQuery {
    /// Query only the thread's pointer-sized register values.
    PointerValues,
    /// Read the thread's full machine state structure.
    FullState,
}

/// The query kind the host OS supports.
pub open spec fn query_kind_of(pointer_values_supported: bool) -> ThreadQuery {
    if pointer_values_supported {
        ThreadQuery::PointerValues
    } else {
        ThreadQuery::FullState
    }
}

/// One kernel call of the inspection sequence.
#[derive(Clone, Copy, PartialEq, Eq, Structural, Debug)]
pub enum InspectOp {
    /// Capture this thread's state, forcing it through a barrier.
    QueryState { handle: u64, query: ThreadQuery },
    /// Release this thread handle's reference.
    ReleaseHandle { handle: u64 },
    /// Free the enumeration buffer itself.
    FreeList,
}

/// The verified model of one heavy call: which threads the enumeration
/// returned, how far the walk has come, and which OS resources are still
/// outstanding.
pub struct Inspection {
    /// The thread handles the enumeration returned, in order.
    pub handles: Vec<u64>,
    /// How many threads have had their state queried.
    pub queried: usize,
    /// How many handles have had their reference released.
    pub released: usize,
    /// The state query the host OS supports.
    pub query: ThreadQuery,
    /// Whether the enumeration buffer has been freed.
    pub list_freed: bool,
}

impl Inspection {
    /// Each handle is queried before it is released, handles are walked
    /// in order, and the buffer is freed only after every handle is
    /// released.
    pub open spec fn wf(self) -> bool {
        &&& self.released <= self.queried <= self.handles@.len()
        &&& self.queried <= self.released + 1
        &&& (self.list_freed ==> self.released == self.handles@.len() && self.queried
            == self.released)
    }

    /// OS resources this call still holds: unreleased handle references
    /// plus the enumeration buffer while it lives.
    pub open spec fn outstanding(self) -> int {
        self.handles@.len() - self.released + if self.list_freed {
            0int
        } else {
            1int
        }
    }

    /// The call is complete once the buffer is freed (which the
    /// invariant only allows after every handle was released).
    pub open spec fn complete_spec(self) -> bool {
        self.list_freed
    }

    /// Kernel calls still ahead of the walk; every [`Inspection::advance`]
    /// lowers it by at least one.
    pub open spec fn work_left(self) -> int {
        self.handles@.len() - self.queried + 2 * (self.handles@.len() - self.released) + if self.list_freed {
            0int
        } else {
            1int
        }
    }

    /// Starts one heavy call from a finished enumeration: the handle
    /// list and its buffer were just acquired, nothing is processed yet.
    pub fn new(handles: Vec<u64>, pointer_values_supported: bool) -> (r: Inspection)
        ensures
            r.wf(),
            r.handles == handles,
            r.queried == 0,
            r.released == 0,
            r.query == query_kind_of(pointer_values_supported),
            !r.list_freed,
            r.outstanding() == handles@.len() + 1,
    {
        Inspection {
            handles,
            queried: 0,
            released: 0,
            query: if pointer_values_supported {
                ThreadQuery::PointerValues
            } else {
                ThreadQuery::FullState
            },
            list_freed: false,
        }
    }

    /// Whether the call is complete.
    pub fn complete(&self) -> (r: bool)
        ensures
            r == self.complete_spec(),
    {
        self.list_freed
    }

    /// The kernel call the runtime must make next, or `None` once the
    /// call is complete.
    pub fn next_op(&self) -> (r: Option<InspectOp>)
        requires
            self.wf(),
        ensures
            r == if self.queried > self.released {
                Some(InspectOp::ReleaseHandle { handle: self.handles@[self.released as int] })
            } else if self.queried < self.handles@.len() {
                Some(
                    InspectOp::QueryState {
                        handle: self.handles@[self.queried as int],
                        query: self.query,
                    },
                )
            } else if !self.list_freed {
                Some(InspectOp::FreeList)
            } else {
                None::<InspectOp>
            },
    {
        if self.queried > self.released {
            let h = self.handles[self.released];
            Some(InspectOp::ReleaseHandle { handle: h })
        } else if self.queried < self.handles.len() {
            let h = self.handles[self.queried];
            Some(InspectOp::QueryState { handle: h, query: self.query })
        } else if !self.list_freed {
            Some(InspectOp::FreeList)
        } else {
            None
        }
    }

    /// Records that the runtime performed the next kernel call. A query
    /// holds resources steady; a release and the buffer free each retire
    /// one outstanding resource, so the walk never leaks and never frees
    /// twice.
    pub fn advance(&mut self)
        requires
            old(self).wf(),
            !old(self).complete_spec(),
        ensures
            final(self).wf(),
            final(self).handles == old(self).handles,
            final(self).query == old(self).query,
            final(self).work_left() < old(self).work_left(),
            old(self).queried > old(self).released
                ==> *final(self) == (Inspection {
                    released: (old(self).released + 1) as usize,
                    ..*old(self)
                }) && final(self).outstanding() == old(self).outstanding() - 1,
            old(self).queried == old(self).released && old(self).queried < old(self).handles@.len()
                ==> *final(self) == (Inspection {
                    queried: (old(self).queried + 1) as usize,
                    ..*old(self)
                }) && final(self).outstanding() == old(self).outstanding(),
            old(self).queried == old(self).released && old(self).queried == old(self).handles@.len()
                ==> *final(self) == (Inspection { list_freed: true, ..*old(self) })
                    && final(self).outstanding() == old(self).outstanding() - 1,
    {
        if self.queried > self.released {
            self.released = self.released + 1;
        } else if self.queried < self.handles.len() {
            self.queried = self.queried + 1;
        } else {
            self.list_freed = true;
        }
    }
}

/// Law: a complete heavy call holds no OS resource — every handle
/// reference acquired by the enumeration was released and the
/// enumeration buffer was freed before the call returned.
pub proof fn lemma_no_leaks(r: Inspection)
    requires
        r.wf(),
        r.complete_spec(),
    ensures
        r.outstanding() == 0,
{
}

/// One whole heavy call: walks the enumeration's handles in order,
/// querying each thread's state and releasing each handle, then frees
/// the enumeration buffer. The result is a complete call with every
/// thread queried and nothing outstanding.
pub fn flush_process_write_buffers(handles: Vec<u64>, pointer_values_supported: bool) -> (r:
    Inspection)
    ensures
        r.wf(),
        r.complete_spec(),
        r.handles == handles,
        r.query == query_kind_of(pointer_values_supported),
        r.queried == r.handles@.len(),
        r.released == r.handles@.len(),
        r.outstanding() == 0,
{
    let mut run = Inspection::new(handles, pointer_values_supported);
    while !run.complete()
        invariant
            run.wf(),
            run.handles == handles,
            run.query == query_kind_of(pointer_values_supported),
        decreases run.work_left(),
    {
        run.advance();
    }
    proof {
        lemma_no_leaks(run);
    }
    run
}

} // verus!
