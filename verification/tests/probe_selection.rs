use membarrier::cache::SelectionCell;
use membarrier::probe::{built_in_strategy, linux_fallback, query_ok, Probe, ProbeAction};
use membarrier::strategy::{Arch, Platform, Strategy};
use membarrier::{inspect, mprotect};

#[test]
fn query_result_needs_both_commands() {
    // bit 3 (private expedited) and bit 4 (its registration) must both be reported
    assert!(query_ok(24)); // 8 | 16
    assert!(query_ok(25));
    assert!(query_ok(i64::MAX));
    assert!(!query_ok(0));
    assert!(!query_ok(8)); // registration command missing
    assert!(!query_ok(16)); // barrier command missing
    assert!(!query_ok(7));
    assert!(!query_ok(-1)); // the query call itself failed
    assert!(!query_ok(i64::MIN));
}

#[test]
fn probe_selects_kernel_assisted_when_query_and_registration_pass() {
    let mut p = Probe::new(Arch::X86_64);
    assert_eq!(p.next_action(), ProbeAction::IssueQuery);
    assert_eq!(p.selection(), None);
    p.on_query(24);
    assert_eq!(p.next_action(), ProbeAction::IssueRegister);
    p.on_register(0);
    assert_eq!(p.next_action(), ProbeAction::Done);
    assert_eq!(p.selection(), Some(Strategy::KernelAssisted));
}

#[test]
fn probe_falls_through_when_registration_fails() {
    let mut p = Probe::new(Arch::X86_64);
    p.on_query(24);
    p.on_register(-1);
    assert_eq!(p.selection(), Some(Strategy::PageProtection));

    let mut q = Probe::new(Arch::Other);
    q.on_query(24);
    q.on_register(-1);
    assert_eq!(q.selection(), Some(Strategy::Fallback));
}

#[test]
fn probe_skips_registration_when_query_reports_no_support() {
    let mut p = Probe::new(Arch::X86);
    p.on_query(0);
    // no registration call may follow a failed query
    assert_eq!(p.next_action(), ProbeAction::Done);
    assert_eq!(p.selection(), Some(Strategy::PageProtection));

    let mut q = Probe::new(Arch::Aarch64);
    q.on_query(-38); // the kernel knows no such system call
    assert_eq!(q.next_action(), ProbeAction::Done);
    assert_eq!(q.selection(), Some(Strategy::Fallback));
}

#[test]
fn linux_fallback_depends_on_architecture() {
    assert_eq!(linux_fallback(Arch::X86), Strategy::PageProtection);
    assert_eq!(linux_fallback(Arch::X86_64), Strategy::PageProtection);
    assert_eq!(linux_fallback(Arch::Aarch64), Strategy::Fallback);
    assert_eq!(linux_fallback(Arch::Other), Strategy::Fallback);
}

#[test]
fn page_protection_architecture_gate() {
    assert!(mprotect::is_supported(Arch::X86));
    assert!(mprotect::is_supported(Arch::X86_64));
    assert!(!mprotect::is_supported(Arch::Aarch64));
    assert!(!mprotect::is_supported(Arch::Other));
}

#[test]
fn thread_inspection_architecture_gate() {
    assert!(inspect::is_supported(Arch::X86_64));
    assert!(inspect::is_supported(Arch::Aarch64));
    assert!(!inspect::is_supported(Arch::X86));
    assert!(!inspect::is_supported(Arch::Other));
}

#[test]
fn platforms_without_probing_fix_the_strategy() {
    assert_eq!(built_in_strategy(Platform::Linux, Arch::X86_64), None);
    assert_eq!(
        built_in_strategy(Platform::Windows, Arch::Other),
        Some(Strategy::WriteBufferFlush)
    );
    assert_eq!(
        built_in_strategy(Platform::MacOs, Arch::Aarch64),
        Some(Strategy::ThreadInspection)
    );
    assert_eq!(
        built_in_strategy(Platform::MacOs, Arch::X86_64),
        Some(Strategy::ThreadInspection)
    );
    assert_eq!(
        built_in_strategy(Platform::MacOs, Arch::X86),
        Some(Strategy::Fallback)
    );
    assert_eq!(
        built_in_strategy(Platform::Ios, Arch::Aarch64),
        Some(Strategy::ThreadInspection)
    );
    assert_eq!(
        built_in_strategy(Platform::Other, Arch::X86_64),
        Some(Strategy::Fallback)
    );
}

#[test]
fn probe_result_is_cached_and_idempotent() {
    // the first caller's probe result is the one every caller observes
    let mut cell = SelectionCell::new();
    assert_eq!(cell.get(), None);
    let first = cell.get_or_init(Strategy::KernelAssisted);
    assert_eq!(first, Strategy::KernelAssisted);
    // a later caller whose own probe run would have chosen differently
    let second = cell.get_or_init(Strategy::Fallback);
    assert_eq!(second, first);
    let third = cell.get_or_init(Strategy::PageProtection);
    assert_eq!(third, first);
    assert_eq!(cell.get(), Some(Strategy::KernelAssisted));
}
