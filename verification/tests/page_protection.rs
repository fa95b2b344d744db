use membarrier::mprotect::{
    mapping_ok, os_call_ok, page_size_ok, Barrier, PageOp, PageProt, Phase,
};
use membarrier::probe::Probe;
use membarrier::strategy::{Arch, Strategy};

#[test]
fn one_barrier_call_runs_the_toggle_sequence_exactly_once() {
    let mut b = Barrier::new(1);
    assert_eq!(b.page.prot, PageProt::NoAccess);
    assert_eq!(b.page.word, 0);
    assert!(b.page.pinned);
    assert!(!b.page.locked);

    // drive the call step by step, checking the announced OS call each time
    let expected = [
        PageOp::LockMutex,
        PageOp::ProtectReadWrite,
        PageOp::WritePage,
        PageOp::ProtectNoAccess,
        PageOp::UnlockMutex,
    ];
    for op in expected {
        assert_eq!(b.next_op(0), op);
        assert!(b.step(0));
    }
    // one dirtying write, protection restored, mutex free, pin intact
    assert_eq!(b.page.word, 1);
    assert_eq!(b.page.prot, PageProt::NoAccess);
    assert!(!b.page.locked);
    assert!(b.page.pinned);
    assert_eq!(b.calls[0], Phase::Idle);
}

#[test]
fn repeated_barrier_calls_return_normally() {
    let mut b = Barrier::new(1);
    for round in 1..=100u64 {
        b.barrier(0);
        assert_eq!(b.page.word, round);
        assert_eq!(b.page.prot, PageProt::NoAccess);
        assert!(b.page.pinned);
        assert!(!b.page.locked);
    }
}

#[test]
fn concurrent_caller_blocks_until_the_mutex_is_free() {
    let mut b = Barrier::new(2);

    // caller 0 takes the mutex and opens the page
    assert!(b.step(0));
    assert!(b.step(0));
    assert_eq!(b.page.prot, PageProt::ReadWrite);

    // caller 1 cannot enter while the page is mid-toggle
    assert!(!b.step(1));
    assert_eq!(b.calls[1], Phase::Idle);
    assert_eq!(b.page.prot, PageProt::ReadWrite);

    // caller 0 finishes its sequence
    assert!(b.step(0));
    assert!(b.step(0));
    assert!(b.step(0));
    assert_eq!(b.calls[0], Phase::Idle);

    // caller 1 now acquires a free mutex and finds the page no-access:
    // no read+write state leaks from caller 0's toggle
    assert_eq!(b.page.prot, PageProt::NoAccess);
    assert!(!b.page.locked);
    assert!(b.step(1));
    assert_eq!(b.calls[1], Phase::Holding);
    assert_eq!(b.page.prot, PageProt::NoAccess);

    // and completes its own call
    assert!(b.step(1));
    assert!(b.step(1));
    assert!(b.step(1));
    assert!(b.step(1));
    assert_eq!(b.page.word, 2);
    assert_eq!(b.page.prot, PageProt::NoAccess);
    assert!(!b.page.locked);
}

#[test]
fn interleaved_callers_never_corrupt_the_page() {
    // many rounds of two callers racing for the mutex, one step at a time
    let mut b = Barrier::new(2);
    let mut done: u64 = 0;
    let mut turn: usize = 0;
    while done < 20 {
        let before_idle = b.calls[turn] == Phase::Idle;
        let progressed = b.step(turn);
        if progressed && before_idle {
            // a fresh acquisition always finds the page no-access; the
            // step contract adds that the pre-state protection was
            // no-access, observable here through the unchanged fields
            assert_eq!(b.page.prot, PageProt::NoAccess);
        }
        if progressed && b.calls[turn] == Phase::Idle {
            done += 1;
        }
        // alternate, so the two callers contend
        turn = 1 - turn;
        // the pin must survive every interleaving
        assert!(b.page.pinned);
    }
    assert_eq!(b.page.word, 20);
}

#[test]
fn forced_fallback_to_page_protection_keeps_the_pin_across_calls() {
    // the kernel-assisted mechanism reports "unavailable", the
    // architecture supports page protection
    let mut p = Probe::new(Arch::X86_64);
    p.on_query(0);
    assert_eq!(p.selection(), Some(Strategy::PageProtection));

    let mut b = Barrier::new(1);
    b.barrier(0);
    assert!(b.page.pinned);
    b.barrier(0);
    assert!(b.page.pinned);
    assert_eq!(b.page.word, 2);
    assert_eq!(b.page.prot, PageProt::NoAccess);
    assert!(!b.page.locked);
}

#[test]
fn dirtying_write_wraps_at_the_word_limit() {
    let mut b = Barrier::new(1);
    b.page.word = u64::MAX;
    b.barrier(0);
    assert_eq!(b.page.word, 0);
    b.barrier(0);
    assert_eq!(b.page.word, 1);
}

#[test]
fn page_setup_checks() {
    assert!(page_size_ok(4096));
    assert!(page_size_ok(1));
    assert!(!page_size_ok(0));
    assert!(!page_size_ok(-1));

    assert!(mapping_ok(false, 0x7f00_0000_0000, 4096));
    assert!(!mapping_ok(true, 0x7f00_0000_0000, 4096)); // mapping failed
    assert!(!mapping_ok(false, 0x7f00_0000_0001, 4096)); // not page-aligned

    assert!(os_call_ok(0));
    assert!(!os_call_ok(-1));
    assert!(!os_call_ok(22));
}
