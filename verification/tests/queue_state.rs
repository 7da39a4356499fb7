use std::cell::Cell;
use zero_pool::epoch::{EPOCH_MASK, NOT_IN_CRITICAL};
use zero_pool::garbage::{GarbageList, GarbageNode};
use zero_pool::queue::{Queue, WorkWait};

#[test]
fn new_queue_has_one_slot_per_worker() {
    let q = Queue::new(4);
    assert_eq!(q.worker_count(), 4);
    assert_eq!(q.current_epoch(), 0);
    assert!(!q.is_shutdown());
    assert_eq!(Queue::new(0).worker_count(), 0);
}

#[test]
fn notify_picks_idle_workers_only() {
    let q = Queue::new(4);
    assert_eq!(q.notify(2), vec![0, 1]);
    assert_eq!(q.notify(9), vec![0, 1, 2, 3]);
    let mut cached = NOT_IN_CRITICAL;
    q.pin_epoch(1, &mut cached);
    assert_eq!(cached, 0);
    assert_eq!(q.notify(4), vec![0, 2, 3]);
    assert_eq!(q.notify(1), vec![0]);
}

#[test]
fn global_epoch_advances_every_256_batches() {
    let q = Queue::new(2);
    for _ in 0..255 {
        q.batch_completed();
    }
    assert_eq!(q.current_epoch(), 0);
    q.batch_completed();
    assert_eq!(q.current_epoch(), 1);
    for _ in 0..512 {
        q.batch_completed();
    }
    assert_eq!(q.current_epoch(), 3);
    assert!(q.current_epoch() <= EPOCH_MASK);
}

#[test]
fn min_active_epoch_follows_pinned_workers() {
    let q = Queue::new(3);
    assert_eq!(q.min_active_epoch(), 0);
    let mut cached0 = NOT_IN_CRITICAL;
    q.pin_epoch(0, &mut cached0);
    for _ in 0..512 {
        q.batch_completed();
    }
    assert_eq!(q.current_epoch(), 2);
    // worker 0 is still pinned at epoch 0
    assert_eq!(q.min_active_epoch(), 0);
    q.pin_epoch(0, &mut cached0);
    assert_eq!(cached0, 2);
    assert_eq!(q.min_active_epoch(), 2);
    let mut cached1 = NOT_IN_CRITICAL;
    q.pin_epoch(1, &mut cached1);
    assert_eq!(q.min_active_epoch(), 2);
}

#[test]
fn poll_leaves_critical_section_before_parking() {
    let q = Queue::new(2);
    let mut cached = NOT_IN_CRITICAL;
    q.pin_epoch(0, &mut cached);
    assert_eq!(cached, 0);
    assert!(q.notify(2) == vec![1]);
    assert!(matches!(q.poll_for_work(0, &mut cached, || false), WorkWait::Park));
    assert_eq!(cached, NOT_IN_CRITICAL);
    assert_eq!(q.notify(2), vec![0, 1]);
    assert!(matches!(q.poll_for_work(0, &mut cached, || false), WorkWait::Park));
}

#[test]
fn poll_reports_work_and_shutdown() {
    let q = Queue::new(1);
    let mut cached = 0u64;
    assert!(matches!(q.poll_for_work(0, &mut cached, || true), WorkWait::Work));
    assert_eq!(cached, 0);
    q.shutdown();
    assert!(q.is_shutdown());
    assert!(matches!(q.poll_for_work(0, &mut cached, || false), WorkWait::Shutdown));
    // tasks still come first
    assert!(matches!(q.poll_for_work(0, &mut cached, || true), WorkWait::Work));
}

#[test]
fn poll_looks_again_after_leaving() {
    let q = Queue::new(1);
    let mut cached = 0u64;
    let calls = Cell::new(0);
    let probe = || {
        calls.set(calls.get() + 1);
        calls.get() >= 2
    };
    assert!(matches!(q.poll_for_work(0, &mut cached, probe), WorkWait::Work));
    assert_eq!(calls.get(), 2);
    assert_eq!(cached, NOT_IN_CRITICAL);
}

#[test]
fn garbage_clean_frees_safe_prefix() {
    let mut g: GarbageList<char> = GarbageList::new();
    assert!(g.is_empty());
    g.retire('a', 0);
    g.retire('b', 1);
    g.retire('c', 5);
    g.retire('d', 1);
    assert_eq!(g.len(), 4);
    assert_eq!(g.clean(0), Vec::<char>::new());
    assert_eq!(g.clean(2), vec!['a', 'b']);
    assert_eq!(g.len(), 2);
    // 'c' blocks 'd' even though 'd' is old enough: the prefix stops at 'c'
    assert_eq!(g.clean(3), Vec::<char>::new());
    assert_eq!(g.drain(), vec!['c', 'd']);
    assert!(g.is_empty());
    assert_eq!(g.drain(), Vec::<char>::new());
}

#[test]
fn garbage_node_fields() {
    let n = GarbageNode::new(7u32, 9);
    assert_eq!(n.task_batch, 7);
    assert_eq!(n.epoch, 9);
}

#[test]
fn garbage_is_cleaned_every_256_ticks() {
    let q = Queue::new(2);
    let mut g: GarbageList<u32> = GarbageList::new();
    g.retire(1, 0);
    for _ in 0..256 {
        q.batch_completed();
    }
    assert_eq!(q.min_active_epoch(), 1);
    let mut tick: u8 = 250;
    for _ in 0..5 {
        assert_eq!(g.maybe_clean(&q, &mut tick), Vec::<u32>::new());
    }
    assert_eq!(tick, 255);
    assert_eq!(g.len(), 1);
    assert_eq!(g.maybe_clean(&q, &mut tick), vec![1]);
    assert_eq!(tick, 0);
    assert!(g.is_empty());
}

#[test]
fn garbage_waits_for_pinned_worker() {
    let q = Queue::new(2);
    let mut cached = NOT_IN_CRITICAL;
    q.pin_epoch(1, &mut cached);
    let mut g: GarbageList<u32> = GarbageList::new();
    g.retire(5, q.current_epoch());
    for _ in 0..256 {
        q.batch_completed();
    }
    assert_eq!(g.clean(q.min_active_epoch()), Vec::<u32>::new());
    q.pin_epoch(1, &mut cached);
    assert_eq!(g.clean(q.min_active_epoch()), vec![5]);
}
