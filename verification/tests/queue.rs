use dbsink::queue::{DequeueOutcome, RecordQueue};
use dbsink::record::DataStruct;

fn rec(id: i64) -> DataStruct {
    DataStruct {
        id,
        field0: 0,
        field1: 0,
    }
}

#[test]
fn occupancy_never_exceeds_capacity() {
    let mut q = RecordQueue::new(2);
    assert!(q.try_enqueue(rec(1)));
    assert!(q.try_enqueue(rec(2)));
    assert!(!q.try_enqueue(rec(3)));
    assert_eq!(q.len(), 2);
    assert_eq!(q.dequeue(), DequeueOutcome::Received(rec(1)));
    assert!(q.try_enqueue(rec(3)));
    assert_eq!(q.len(), 2);
}

#[test]
fn records_leave_in_enqueue_order() {
    let mut q = RecordQueue::new(8);
    assert!(q.try_enqueue(rec(5)));
    assert!(q.try_enqueue(rec(6)));
    assert!(q.try_enqueue(rec(7)));
    assert_eq!(q.dequeue(), DequeueOutcome::Received(rec(5)));
    assert_eq!(q.dequeue(), DequeueOutcome::Received(rec(6)));
    assert_eq!(q.dequeue(), DequeueOutcome::Received(rec(7)));
}

#[test]
fn empty_open_queue_makes_consumer_wait() {
    let mut q = RecordQueue::new(3);
    assert_eq!(q.dequeue(), DequeueOutcome::Pending);
}

#[test]
fn closed_queue_refuses_new_records_but_drains() {
    let mut q = RecordQueue::new(3);
    assert!(q.try_enqueue(rec(1)));
    q.close();
    assert!(!q.try_enqueue(rec(2)));
    assert_eq!(q.dequeue(), DequeueOutcome::Received(rec(1)));
    assert_eq!(q.dequeue(), DequeueOutcome::Closed);
}

#[test]
fn zero_capacity_queue_accepts_nothing() {
    let mut q = RecordQueue::new(0);
    assert!(!q.try_enqueue(rec(1)));
    assert_eq!(q.len(), 0);
}
