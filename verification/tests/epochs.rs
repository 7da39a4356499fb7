use zero_pool::epoch::{
    can_reclaim, is_not_newer, next_tick, oldest_active_epoch, EPOCH_MASK, EPOCH_MASK_HALF,
    NOT_IN_CRITICAL,
};
use zero_pool::wake::{parked_to_wake, workers_to_wake};

#[test]
fn epoch_constants() {
    assert_eq!(NOT_IN_CRITICAL, u64::MAX);
    assert_eq!(EPOCH_MASK, 0x7fff_ffff_ffff_ffff);
    assert_eq!(EPOCH_MASK_HALF, 0x3fff_ffff_ffff_ffff);
}

#[test]
fn reclaim_needs_a_strictly_older_epoch() {
    assert!(can_reclaim(10, 5));
    assert!(can_reclaim(6, 5));
    assert!(!can_reclaim(5, 5));
    assert!(!can_reclaim(5, 6));
    assert!(!can_reclaim(5, 10));
}

#[test]
fn reclaim_across_wrap_around() {
    // the node was stamped just before the epoch wrapped round to zero
    assert!(can_reclaim(1, EPOCH_MASK));
    assert!(can_reclaim(0, EPOCH_MASK));
    assert!(!can_reclaim(EPOCH_MASK, 0));
}

#[test]
fn reclaim_window_is_half_the_epoch_space() {
    assert!(can_reclaim(EPOCH_MASK_HALF - 1, 0));
    assert!(!can_reclaim(EPOCH_MASK_HALF, 0));
    assert!(!can_reclaim(EPOCH_MASK_HALF + 5, 0));
}

#[test]
fn not_newer_comparison() {
    assert!(is_not_newer(3, 3));
    assert!(is_not_newer(2, 3));
    assert!(!is_not_newer(4, 3));
    assert!(is_not_newer(EPOCH_MASK, 2));
    assert!(!is_not_newer(2, EPOCH_MASK));
}

#[test]
fn oldest_epoch_skips_idle_workers() {
    assert_eq!(oldest_active_epoch(10, &[NOT_IN_CRITICAL, 8, 9]), 8);
    assert_eq!(oldest_active_epoch(10, &[NOT_IN_CRITICAL, NOT_IN_CRITICAL]), 10);
    assert_eq!(oldest_active_epoch(10, &[]), 10);
    assert_eq!(oldest_active_epoch(10, &[10, 10]), 10);
}

#[test]
fn oldest_epoch_across_wrap_around() {
    assert_eq!(oldest_active_epoch(2, &[EPOCH_MASK, 1]), EPOCH_MASK);
    assert_eq!(oldest_active_epoch(2, &[1, EPOCH_MASK, 0]), EPOCH_MASK);
}

#[test]
fn oldest_epoch_lets_only_older_nodes_go() {
    let locals = [NOT_IN_CRITICAL, 7, 5, 9];
    let safe = oldest_active_epoch(9, &locals);
    assert_eq!(safe, 5);
    for node in 0..12u64 {
        if can_reclaim(safe, node) {
            assert!(locals.iter().all(|&e| e == NOT_IN_CRITICAL || node < e));
        }
    }
    assert!(can_reclaim(safe, 4));
    assert!(!can_reclaim(safe, 5));
}

#[test]
fn tick_wraps_at_256() {
    assert_eq!(next_tick(0), (1, false));
    assert_eq!(next_tick(7), (8, false));
    assert_eq!(next_tick(254), (255, false));
    assert_eq!(next_tick(255), (0, true));
}

#[test]
fn tick_wraps_once_every_256_ticks() {
    for start in [0u8, 1, 200, 255] {
        let mut tick = start;
        let mut wraps = 0u32;
        for _ in 0..1000 {
            let (next, wrapped) = next_tick(tick);
            tick = next;
            if wrapped {
                wraps += 1;
            }
        }
        assert_eq!(wraps, (start as u32 + 1000) / 256);
    }
}

#[test]
fn wake_first_idle_workers() {
    let n = NOT_IN_CRITICAL;
    assert_eq!(workers_to_wake(&[n, 3, n, n], 2), vec![0, 2]);
    assert_eq!(workers_to_wake(&[n, 3, n, n], 1), vec![0]);
    assert_eq!(workers_to_wake(&[n, 3, n, n], 10), vec![0, 2, 3]);
    assert_eq!(workers_to_wake(&[1, 3, 4], 1), Vec::<usize>::new());
    assert_eq!(workers_to_wake(&[], 3), Vec::<usize>::new());
    assert_eq!(workers_to_wake(&[2, 2], 0), Vec::<usize>::new());
}

#[test]
fn wake_parked_workers() {
    assert_eq!(parked_to_wake(&[true, false, true], 0), Vec::<usize>::new());
    assert_eq!(parked_to_wake(&[true, false, true], 1), vec![0]);
    assert_eq!(parked_to_wake(&[true, false, true], 5), vec![0, 2]);
    assert_eq!(parked_to_wake(&[false, false], 2), Vec::<usize>::new());
}
