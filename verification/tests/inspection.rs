use membarrier::inspect::{
    flush_process_write_buffers, kern_call_ok, Inspection, InspectOp, ThreadQuery,
};

#[test]
fn walk_queries_then_releases_each_handle_then_frees_the_list() {
    let mut run = Inspection::new(vec![7, 9], true);
    assert_eq!(
        run.next_op(),
        Some(InspectOp::QueryState { handle: 7, query: ThreadQuery::PointerValues })
    );
    run.advance();
    assert_eq!(run.next_op(), Some(InspectOp::ReleaseHandle { handle: 7 }));
    run.advance();
    assert_eq!(
        run.next_op(),
        Some(InspectOp::QueryState { handle: 9, query: ThreadQuery::PointerValues })
    );
    run.advance();
    assert_eq!(run.next_op(), Some(InspectOp::ReleaseHandle { handle: 9 }));
    run.advance();
    assert_eq!(run.next_op(), Some(InspectOp::FreeList));
    assert!(!run.complete());
    run.advance();
    assert!(run.complete());
    assert_eq!(run.next_op(), None);
    assert_eq!(run.queried, 2);
    assert_eq!(run.released, 2);
    assert!(run.list_freed);
}

#[test]
fn older_hosts_fall_back_to_the_full_state_query() {
    let run = Inspection::new(vec![3], false);
    assert_eq!(
        run.next_op(),
        Some(InspectOp::QueryState { handle: 3, query: ThreadQuery::FullState })
    );
}

#[test]
fn one_call_leaves_nothing_outstanding() {
    let handles = vec![11, 22, 33, 44];
    let run = flush_process_write_buffers(handles.clone(), true);
    assert_eq!(run.handles, handles);
    assert_eq!(run.queried, 4); // every thread was forced through a barrier
    assert_eq!(run.released, 4); // every handle reference was released
    assert!(run.list_freed); // the enumeration buffer was freed
    assert!(run.complete());
}

#[test]
fn empty_enumeration_still_frees_the_list() {
    let run = flush_process_write_buffers(Vec::new(), false);
    assert_eq!(run.queried, 0);
    assert_eq!(run.released, 0);
    assert!(run.list_freed);
}

#[test]
fn repeated_calls_never_leak() {
    // resource count before == resource count after, across 10 000 calls
    for round in 0..10_000u64 {
        let handles = vec![round, round + 1, round + 2];
        let run = flush_process_write_buffers(handles, round % 2 == 0);
        assert_eq!(run.released, 3);
        assert!(run.list_freed);
    }
}

#[test]
fn kernel_result_checks() {
    assert!(kern_call_ok(0));
    assert!(!kern_call_ok(1));
    assert!(!kern_call_ok(-1));
}
