use quindar::Scheduler;

#[test]
fn requests_play_one_at_a_time_in_order() {
    let mut s: Scheduler<&str> = Scheduler::new();
    assert_eq!(s.enqueue("first"), 0);
    assert_eq!(s.enqueue("second"), 1);
    assert_eq!(s.enqueue("third"), 2);
    assert_eq!(s.pending_len(), 3);

    assert_eq!(s.begin_next(), Some((0, "first")));
    assert!(s.is_busy());
    // the worker is busy: nothing else starts
    assert_eq!(s.begin_next(), None);
    assert_eq!(s.pending_len(), 2);
    // accepting work never waits on the worker
    assert_eq!(s.enqueue("fourth"), 3);
    assert_eq!(s.finish(), 0);
    assert!(!s.is_busy());

    let mut started = vec![0u64];
    while let Some((t, _)) = s.begin_next() {
        started.push(t);
        assert_eq!(s.begin_next(), None);
        assert_eq!(s.finish(), t);
    }
    assert_eq!(started, vec![0, 1, 2, 3]);
    assert_eq!(s.pending_len(), 0);
}

#[test]
fn empty_queue_gives_nothing() {
    let mut s: Scheduler<u8> = Scheduler::new();
    assert_eq!(s.begin_next(), None);
    assert!(!s.is_busy());
}

#[test]
fn no_request_is_skipped() {
    let mut s: Scheduler<u32> = Scheduler::new();
    for i in 0..5u32 {
        assert_eq!(s.enqueue(i * 10), i as u64);
    }
    for i in 0..5u32 {
        assert_eq!(s.begin_next(), Some((i as u64, i * 10)));
        assert!(s.can_accept());
        assert_eq!(s.finish(), i as u64);
    }
    assert_eq!(s.begin_next(), None);
}
