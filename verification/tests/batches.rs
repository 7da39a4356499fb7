use zero_pool::future::WorkFuture;
use zero_pool::task_batch::TaskBatch;
use zero_pool::work_batch::WorkBatch;
use zero_pool::work_item::WorkItem;
use zero_pool::{tasks_at_layout, uniform_tasks_to_pointers, TaskFuture};

fn addr<T>(r: &T) -> usize {
    let text = format!("{:p}", r);
    usize::from_str_radix(text.trim_start_matches("0x"), 16).unwrap()
}

#[test]
fn uniform_items_point_at_each_element() {
    let params = [10u64, 20, 30];
    let items = uniform_tasks_to_pointers('f', &params);
    assert_eq!(items.len(), 3);
    for (i, item) in items.iter().enumerate() {
        assert_eq!(item.0, 'f');
        assert_eq!(item.1, addr(&params[i]));
    }
    let empty: [u16; 0] = [];
    assert!(uniform_tasks_to_pointers(1u8, &empty).is_empty());
}

#[test]
fn layout_items_exact_addresses() {
    let items = tasks_at_layout(3u8, 1000, 16, 3);
    assert_eq!(items, vec![(3, 1000), (3, 1016), (3, 1032)]);
    assert!(tasks_at_layout(3u8, 1000, 16, 0).is_empty());
}

#[test]
fn task_batch_claims_every_param_once() {
    let params = [1u32, 2, 3, 4];
    let batch = TaskBatch::new(7u8, &params, WorkFuture::new(4));
    assert_eq!(batch.fn_ptr(), 7);
    assert!(batch.has_unclaimed_tasks());
    for p in params.iter() {
        assert_eq!(batch.claim_next_param(), Some(addr(p)));
    }
    assert!(!batch.has_unclaimed_tasks());
    assert_eq!(batch.claim_next_param(), None);
    assert_eq!(batch.claim_next_param(), None);
}

#[test]
fn task_batch_param_address() {
    let params = [0u64; 3];
    let batch = TaskBatch::new((), &params, WorkFuture::new(3));
    assert_eq!(batch.param_address(0), Some(addr(&params[0])));
    assert_eq!(batch.param_address(2), Some(addr(&params[0]) + 16));
    assert_eq!(batch.param_address(3), None);
}

#[test]
fn empty_task_batch_has_nothing_to_claim() {
    let params: [u64; 0] = [];
    let batch = TaskBatch::new((), &params, WorkFuture::new(0));
    assert!(!batch.has_unclaimed_tasks());
    assert_eq!(batch.claim_next_param(), None);
    assert!(batch.is_complete());
    batch.wait();
    assert!(batch.wait_timeout(std::time::Duration::from_millis(1)));
}

#[test]
fn task_batch_completion() {
    let params = [1u8, 2];
    let batch = TaskBatch::new((), &params, WorkFuture::new(2));
    assert!(!batch.is_complete());
    batch.complete_many(1);
    assert!(!batch.is_complete());
    assert!(!batch.future().is_complete());
    batch.complete_many(1);
    assert!(batch.is_complete());
}

#[test]
fn future_counts_down() {
    let f = WorkFuture::new(3);
    assert_eq!(f.remaining_count(), 3);
    assert!(!f.is_complete());
    let g = f.clone();
    g.complete_many(2);
    assert_eq!(f.remaining_count(), 1);
    assert!(!f.is_complete());
    f.complete_many(1);
    assert!(f.is_complete());
    assert!(g.is_complete());
    f.clone().wait();
    assert!(f.wait_timeout(std::time::Duration::from_millis(1)));
}

#[test]
fn empty_future_is_complete_at_once() {
    let f: TaskFuture = WorkFuture::new(0);
    assert!(f.is_complete());
    let start = std::time::Instant::now();
    assert!(f.clone().wait_timeout(std::time::Duration::from_millis(100)));
    assert!(start.elapsed() < std::time::Duration::from_millis(50));
    f.wait();
}

#[test]
fn future_times_out_while_incomplete() {
    let f = WorkFuture::new(1);
    assert!(!f.clone().wait_timeout(std::time::Duration::from_millis(20)));
    assert_eq!(f.remaining_count(), 1);
}

#[test]
fn work_item_fields() {
    let w = WorkItem::new(4096, 'x');
    assert_eq!(w.params, 4096);
    assert_eq!(w.task_fn, 'x');
}

#[test]
fn work_batch_claims_in_order() {
    let items = vec![WorkItem::new(1, 'a'), WorkItem::new(2, 'b')];
    let batch = WorkBatch::new(items, WorkFuture::new(2));
    assert!(batch.has_work());
    assert_eq!(batch.item_at(1).map(|w| w.params), Some(2));
    assert_eq!(batch.item_at(2).map(|w| w.params), None);
    assert_eq!(batch.claim_next_item().map(|w| w.task_fn), Some('a'));
    assert_eq!(batch.claim_next_item().map(|w| w.task_fn), Some('b'));
    assert!(!batch.has_work());
    assert!(batch.claim_next_item().is_none());
    assert!(batch.claim_next_item().is_none());
    assert_eq!(batch.items.len(), 2);
    assert!(!batch.future.is_complete());
}

#[test]
fn empty_work_batch_has_no_work() {
    let batch: WorkBatch<char> = WorkBatch::new(Vec::new(), WorkFuture::new(0));
    assert!(!batch.has_work());
    assert!(batch.claim_next_item().is_none());
    assert!(!batch.has_work());
}
