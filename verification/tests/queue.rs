use orchestration::error::OrcError;
use orchestration::queue::priority::{BoundedPriorityQueue, PopPoll};
use orchestration::types::Priority;

#[test]
fn priority_ordering_critical_first() {
    let mut q: BoundedPriorityQueue<&str> = BoundedPriorityQueue::new(10);
    q.try_push("low", Priority::Low).ok();
    q.try_push("critical", Priority::Critical).ok();
    q.try_push("normal", Priority::Normal).ok();
    q.try_push("high", Priority::High).ok();

    assert_eq!(q.try_pop(), Some("critical"));
    assert_eq!(q.try_pop(), Some("high"));
    assert_eq!(q.try_pop(), Some("normal"));
    assert_eq!(q.try_pop(), Some("low"));
}

#[test]
fn fifo_within_same_priority() {
    let mut q: BoundedPriorityQueue<&str> = BoundedPriorityQueue::new(10);
    q.try_push("first", Priority::Normal).ok();
    q.try_push("second", Priority::Normal).ok();
    q.try_push("third", Priority::Normal).ok();

    assert_eq!(q.try_pop(), Some("first"));
    assert_eq!(q.try_pop(), Some("second"));
    assert_eq!(q.try_pop(), Some("third"));
}

#[test]
fn backpressure_when_full() {
    let mut q: BoundedPriorityQueue<i32> = BoundedPriorityQueue::new(2);
    assert!(q.try_push(1, Priority::Normal).is_ok());
    assert!(q.try_push(2, Priority::Normal).is_ok());

    let result = q.try_push(3, Priority::Normal);
    assert!(result.is_err());
    assert_eq!(q.len(), 2);
}

#[test]
fn close_rejects_new_items() {
    let mut q: BoundedPriorityQueue<i32> = BoundedPriorityQueue::new(10);
    q.try_push(1, Priority::Normal).ok();
    q.close();

    let result = q.try_push(2, Priority::Normal);
    assert!(result.is_err());
    assert!(q.is_closed());

    // Existing items can still be drained
    assert_eq!(q.try_pop(), Some(1));
}

#[test]
fn try_pop_empty_returns_none() {
    let mut q: BoundedPriorityQueue<i32> = BoundedPriorityQueue::new(10);
    assert_eq!(q.try_pop(), None);
    assert!(q.is_empty());
}

#[test]
fn capacity_and_len() {
    let mut q: BoundedPriorityQueue<i32> = BoundedPriorityQueue::new(5);
    assert_eq!(q.capacity(), 5);
    assert_eq!(q.len(), 0);
    q.try_push(1, Priority::Normal).ok();
    assert_eq!(q.len(), 1);
}

#[test]
fn full_and_closed_errors_are_distinct() {
    let mut q: BoundedPriorityQueue<i32> = BoundedPriorityQueue::new(1);
    q.try_push(1, Priority::Low).ok();
    match q.try_push(2, Priority::Low) {
        Err(OrcError::QueueFull { capacity }) => assert_eq!(capacity, 1),
        other => panic!("unexpected {other:?}"),
    }
    q.close();
    match q.try_push(3, Priority::Critical) {
        Err(OrcError::QueueClosed) => {}
        other => panic!("unexpected {other:?}"),
    }
    match q.try_push_inner(4, Priority::Critical) {
        Err((item, OrcError::QueueClosed)) => assert_eq!(item, 4),
        other => panic!("unexpected {other:?}"),
    }
}

#[test]
fn mixed_priorities_keep_fifo_per_level() {
    let mut q: BoundedPriorityQueue<u32> = BoundedPriorityQueue::new(8);
    q.try_push(1, Priority::Normal).ok();
    q.try_push(2, Priority::High).ok();
    q.try_push(3, Priority::Normal).ok();
    q.try_push(4, Priority::High).ok();
    q.try_push(5, Priority::Low).ok();
    let mut out = Vec::new();
    while let Some(v) = q.try_pop() {
        out.push(v);
    }
    assert_eq!(out, vec![2, 4, 1, 3, 5]);
}

#[test]
fn zero_capacity_accepts_nothing() {
    let mut q: BoundedPriorityQueue<i32> = BoundedPriorityQueue::new(0);
    assert!(matches!(q.try_push(1, Priority::Critical), Err(OrcError::QueueFull { capacity: 0 })));
    assert!(q.is_empty());
}

#[test]
fn poll_pop_reports_pending_then_drained() {
    let mut q: BoundedPriorityQueue<i32> = BoundedPriorityQueue::new(3);
    assert!(matches!(q.poll_pop(), PopPoll::Pending));
    q.try_push(7, Priority::Normal).ok();
    assert!(matches!(q.poll_pop(), PopPoll::Ready(7)));
    q.close();
    assert!(matches!(q.poll_pop(), PopPoll::Drained));
}

#[test]
fn push_then_pop_returns_the_item() {
    let mut q: BoundedPriorityQueue<&str> = BoundedPriorityQueue::new(1);
    q.try_push("only", Priority::High).ok();
    assert_eq!(q.try_pop(), Some("only"));
    assert!(q.is_empty());
    assert_eq!(q.try_pop(), None);
}
