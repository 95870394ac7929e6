use streamer_core::pool::CapturePool;

#[test]
fn triple_buffer_acquire_release_scenario() {
    // Pool of three slots: three ticks claim slots 0, 1 and 2; the fourth
    // tick finds no free slot and sets the skip flag; after slot 0 is
    // released the next tick claims slot 0 again.
    let mut pool = CapturePool::new(3);
    assert_eq!(pool.acquire_free(), Some(0));
    assert!(!pool.skip());
    assert_eq!(pool.acquire_free(), Some(1));
    assert_eq!(pool.acquire_free(), Some(2));
    assert_eq!(pool.acquire_free(), None);
    assert!(pool.skip());
    pool.release(0);
    assert_eq!(pool.acquire_free(), Some(0));
    assert!(!pool.skip());
}

#[test]
fn acquire_never_returns_a_busy_slot() {
    for n in 1..6 {
        let mut pool = CapturePool::new(n);
        let mut seen = vec![false; n];
        for _ in 0..n {
            let idx = pool.acquire_free().expect("a slot should be free");
            assert!(!seen[idx], "slot {} was handed out twice", idx);
            seen[idx] = true;
            assert!(pool.slot_in_use(idx));
        }
        assert_eq!(pool.acquire_free(), None);
        assert!(pool.skip());
    }
}

#[test]
fn in_use_never_exceeds_pool_size() {
    let mut pool = CapturePool::new(4);
    // Interleave acquires and releases; the count of busy slots never
    // exceeds the pool size.
    let mut busy = 0usize;
    for step in 0..40 {
        if step % 3 == 0 && busy > 0 {
            // release the lowest busy slot
            for i in 0..pool.len() {
                if pool.slot_in_use(i) {
                    pool.release(i);
                    busy -= 1;
                    break;
                }
            }
        } else if pool.acquire_free().is_some() {
            busy += 1;
        }
        let mut count = 0;
        for i in 0..pool.len() {
            if pool.slot_in_use(i) {
                count += 1;
            }
        }
        assert_eq!(count, busy);
        assert!(count <= 4);
    }
}

#[test]
fn scan_starts_after_most_recently_claimed_slot() {
    let mut pool = CapturePool::new(3);
    assert_eq!(pool.acquire_free(), Some(0));
    pool.release(0);
    // Slot 0 is free again, but the scan starts just after the cursor
    // (slot 0), so slot 1 is claimed first.
    assert_eq!(pool.acquire_free(), Some(1));
    assert_eq!(pool.current(), 1);
    assert_eq!(pool.acquire_free(), Some(2));
    assert_eq!(pool.acquire_free(), Some(0));
}

#[test]
fn single_slot_pool() {
    let mut pool = CapturePool::new(1);
    assert_eq!(pool.acquire_free(), Some(0));
    assert_eq!(pool.acquire_free(), None);
    assert!(pool.skip());
    pool.release(0);
    assert_eq!(pool.acquire_free(), Some(0));
}
