//! The capability probe: deciding, once per process, which barrier
//! mechanism the OS/kernel/architecture combination supports.
//!
//! On most platforms the mechanism is fixed by the platform and
//! architecture alone ([`built_in_strategy`]). Only Linux probes at run
//! time, in strict priority order: the kernel-assisted system call first
//! (query, then one-time registration), then the page-protection fallback
//! (an architecture check), then ordinary fences. The system calls
//! themselves are made by the unverified runtime; [`Probe`] is the state
//! machine that tells the runtime which call to make next and digests each
//! call's result.

use vstd::prelude::*;

use crate::inspect;
use crate::mprotect;
use crate::strategy::{Arch, Platform, Strategy};

verus! {

/// Command code that asks the kernel which barrier commands it supports.
pub const MEMBARRIER_CMD_QUERY: i64 = 0;

/// Command bit reported when the private expedited barrier is supported.
pub const MEMBARRIER_CMD_PRIVATE_EXPEDITED: i64 = 8;

/// Command bit reported when a process may register itself as a private
/// expedited barrier user; the matching registration command code.
pub const MEMBARRIER_CMD_REGISTER_PRIVATE_EXPEDITED: i64 = 16;

/// A query result makes the kernel-assisted mechanism worth registering
/// exactly when the call succeeded and reports both the private expedited
/// command and its registration command as supported.
pub open spec fn query_reports_support(ret: i64) -> bool {
    &&& ret >= 0
    &&& ret & MEMBARRIER_CMD_PRIVATE_EXPEDITED != 0
    &&& ret & MEMBARRIER_CMD_REGISTER_PRIVATE_EXPEDITED != 0
}

/// Digests the result of the "query supported commands" system call.
pub fn query_ok(ret: i64) -> (r: bool)
    ensures
        r == query_reports_support(ret),
{
    ret >= 0 && ret & MEMBARRIER_CMD_PRIVATE_EXPEDITED != 0
        && ret & MEMBARRIER_CMD_REGISTER_PRIVATE_EXPEDITED != 0
}

/// The mechanism Linux falls back to when the kernel-assisted one is
/// unavailable: page protection where the architecture guarantees the
/// TLB-shootdown side effect, ordinary fences elsewhere.
pub open spec fn linux_fallback_of(arch: Arch) -> Strategy {
    if mprotect::arch_has_shootdown(arch) {
        Strategy::PageProtection
    } else {
        Strategy::Fallback
    }
}

/// The strategy fixed at build time on platforms that do not probe:
/// `None` for Linux, which decides at run time.
pub open spec fn built_in_strategy_of(p: Platform, arch: Arch) -> Option<Strategy> {
    match p {
        Platform::Linux => None,
        Platform::Windows => Some(Strategy::WriteBufferFlush),
        Platform::MacOs | Platform::Ios => Some(
            if inspect::arch_supports_inspection(arch) {
                Strategy::ThreadInspection
            } else {
                Strategy::Fallback
            },
        ),
        Platform::Other => Some(Strategy::Fallback),
    }
}

/// The strategy fixed at build time for a platform, or `None` where the
/// platform (Linux) must probe at run time.
pub fn built_in_strategy(p: Platform, arch: Arch) -> (r: Option<Strategy>)
    ensures
        r == built_in_strategy_of(p, arch),
{
    match p {
        Platform::Linux => None,
        Platform::Windows => Some(Strategy::WriteBufferFlush),
        Platform::MacOs | Platform::Ios => {
            if inspect::is_supported(arch) {
                Some(Strategy::ThreadInspection)
            } else {
                Some(Strategy::Fallback)
            }
        },
        Platform::Other => Some(Strategy::Fallback),
    }
}

/// Where the Linux probe stands.
#[derive(Clone, Copy, PartialEq, Eq, Structural, Debug)]
pub enum ProbeState {
    /// The "query supported commands" call has not been made yet.
    AwaitQuery,
    /// The query passed; the one-time registration call is next.
    AwaitRegister,
    /// The probe is finished and selected this mechanism.
    Decided(Strategy),
}

/// The next system call the runtime must make on the probe's behalf.
#[derive(Clone, Copy, PartialEq, Eq, Structural, Debug)]
pub enum ProbeAction {
    /// Issue the barrier system call with [`MEMBARRIER_CMD_QUERY`].
    IssueQuery,
    /// Issue the barrier system call with
    /// [`MEMBARRIER_CMD_REGISTER_PRIVATE_EXPEDITED`].
    IssueRegister,
    /// Nothing: the probe has decided.
    Done,
}

/// The run-time capability probe for Linux. The runtime repeatedly asks
/// [`Probe::next_action`], performs the named system call, and hands the
/// raw result back through [`Probe::on_query`] or [`Probe::on_register`];
/// a probe step failing only ever demotes the selection to the next
/// mechanism in priority order, never aborts.
pub struct Probe {
    /// The host architecture, which decides the page-protection fallback.
    pub arch: Arch,
    /// Where the probe stands.
    pub state: ProbeState,
}

impl Probe {
    /// Starts a probe for a Linux host of the given architecture.
    pub fn new(arch: Arch) -> (r: Probe)
        ensures
            r.arch == arch,
            r.state is AwaitQuery,
    {
        Probe { arch, state: ProbeState::AwaitQuery }
    }

    /// The system call the runtime must make next, if any.
    pub fn next_action(&self) -> (r: ProbeAction)
        ensures
            self.state is AwaitQuery ==> r is IssueQuery,
            self.state is AwaitRegister ==> r is IssueRegister,
            self.state is Decided ==> r is Done,
    {
        match self.state {
            ProbeState::AwaitQuery => ProbeAction::IssueQuery,
            ProbeState::AwaitRegister => ProbeAction::IssueRegister,
            ProbeState::Decided(_) => ProbeAction::Done,
        }
    }

    /// Digests the result of the query call. A result that reports both
    /// needed commands moves on to registration; any other result, an
    /// error included, falls through to the page-protection check.
    pub fn on_query(&mut self, ret: i64)
        requires
            old(self).state is AwaitQuery,
        ensures
            final(self).arch == old(self).arch,
            final(self).state == if query_reports_support(ret) {
                ProbeState::AwaitRegister
            } else {
                ProbeState::Decided(linux_fallback_of(old(self).arch))
            },
    {
        if query_ok(ret) {
            self.state = ProbeState::AwaitRegister;
        } else {
            self.state = ProbeState::Decided(linux_fallback(self.arch));
        }
    }

    /// Digests the result of the one-time registration call. Registration
    /// succeeding selects the kernel-assisted mechanism; failing falls
    /// through to the page-protection check.
    pub fn on_register(&mut self, ret: i64)
        requires
            old(self).state is AwaitRegister,
        ensures
            final(self).arch == old(self).arch,
            final(self).state == if ret >= 0 {
                ProbeState::Decided(Strategy::KernelAssisted)
            } else {
                ProbeState::Decided(linux_fallback_of(old(self).arch))
            },
    {
        if ret >= 0 {
            self.state = ProbeState::Decided(Strategy::KernelAssisted);
        } else {
            self.state = ProbeState::Decided(linux_fallback(self.arch));
        }
    }

    /// The selected mechanism, once the probe has decided.
    pub fn selection(&self) -> (r: Option<Strategy>)
        ensures
            r == match self.state {
                ProbeState::Decided(s) => Some(s),
                _ => None::<Strategy>,
            },
    {
        match self.state {
            ProbeState::Decided(s) => Some(s),
            _ => None,
        }
    }
}

/// The mechanism Linux falls back to when the kernel-assisted one is
/// unavailable.
pub fn linux_fallback(arch: Arch) -> (r: Strategy)
    ensures
        r == linux_fallback_of(arch),
{
    if mprotect::is_supported(arch) {
        Strategy::PageProtection
    } else {
        Strategy::Fallback
    }
}

} // verus!
