use dbsink::protocol::RecordFaults;
use dbsink::queue::RecordQueue;
use dbsink::record::DataStruct;
use dbsink::worker::{progress_tick, run_worker, WorkerState};

fn rec(id: i64) -> DataStruct {
    DataStruct {
        id,
        field0: id * 10,
        field1: id * 100,
    }
}

fn fill(queue: &mut RecordQueue, ids: &[i64]) {
    for &id in ids {
        assert!(queue.try_enqueue(rec(id)));
    }
    queue.close();
}

#[test]
fn happy_path_commits_all_in_order() {
    let mut queue = RecordQueue::new(10);
    fill(&mut queue, &[1, 2, 3]);
    let faults = vec![RecordFaults::none(); 3];
    let rep = run_worker(&mut queue, &faults);
    assert_eq!(rep.state, WorkerState::Stopped);
    assert_eq!(rep.processed, 3);
    assert_eq!(rep.committed_ids, vec![1, 2, 3]);
    assert_eq!(rep.reconnect_count, 0);
    assert_eq!(rep.rollback_count, 0);
    assert_eq!(rep.error_count, 0);
    assert_eq!(queue.len(), 0);
}

#[test]
fn three_records_second_recovers_after_one_reconnect() {
    let mut queue = RecordQueue::new(10);
    fill(&mut queue, &[1, 2, 3]);
    let mut faults = vec![RecordFaults::none(); 3];
    faults[1].first_insert_fails = true;
    let rep = run_worker(&mut queue, &faults);
    assert_eq!(rep.committed_ids, vec![1, 2, 3]);
    assert_eq!(rep.reconnect_count, 1);
    assert_eq!(rep.rollback_count, 0);
    assert_eq!(rep.error_count, 0);
    assert_eq!(rep.state, WorkerState::Stopped);
}

#[test]
fn double_fault_drops_only_that_record() {
    let mut queue = RecordQueue::new(10);
    fill(&mut queue, &[1, 2, 3]);
    let mut faults = vec![RecordFaults::none(); 3];
    faults[1].first_insert_fails = true;
    faults[1].retry_insert_fails = true;
    let rep = run_worker(&mut queue, &faults);
    assert_eq!(rep.committed_ids, vec![1, 3]);
    assert_eq!(rep.reconnect_count, 1);
    assert_eq!(rep.rollback_count, 1);
    assert_eq!(rep.error_count, 1);
    assert_eq!(rep.state, WorkerState::Stopped);
}

#[test]
fn reconnect_failure_continues_with_next_record() {
    let mut queue = RecordQueue::new(10);
    fill(&mut queue, &[1, 2, 3]);
    let mut faults = vec![RecordFaults::none(); 3];
    faults[1].first_insert_fails = true;
    faults[1].reconnect_fails = true;
    let rep = run_worker(&mut queue, &faults);
    assert_eq!(rep.committed_ids, vec![1, 3]);
    assert_eq!(rep.reconnect_count, 0);
    assert_eq!(rep.rollback_count, 0);
    assert_eq!(rep.error_count, 1);
    assert_eq!(rep.state, WorkerState::Stopped);
}

#[test]
fn commit_failure_loses_only_that_record() {
    let mut queue = RecordQueue::new(10);
    fill(&mut queue, &[7, 8]);
    let mut faults = vec![RecordFaults::none(); 2];
    faults[0].commit_fails = true;
    let rep = run_worker(&mut queue, &faults);
    assert_eq!(rep.committed_ids, vec![8]);
    assert_eq!(rep.error_count, 1);
    assert_eq!(rep.rollback_count, 0);
}

#[test]
fn closed_empty_queue_stops_at_once() {
    let mut queue = RecordQueue::new(4);
    queue.close();
    let faults: Vec<RecordFaults> = Vec::new();
    let rep = run_worker(&mut queue, &faults);
    assert_eq!(rep.state, WorkerState::Stopped);
    assert_eq!(rep.processed, 0);
    assert_eq!(rep.committed_ids, Vec::<i64>::new());
    assert_eq!(rep.progress_signals, 0);
}

#[test]
fn progress_signal_on_first_and_five_hundred_first() {
    let n: usize = 501;
    let mut queue = RecordQueue::new(n);
    let ids: Vec<i64> = (0..n as i64).collect();
    fill(&mut queue, &ids);
    let faults = vec![RecordFaults::none(); n];
    let rep = run_worker(&mut queue, &faults);
    assert_eq!(rep.processed, 501);
    assert_eq!(rep.progress_signals, 2);
}

#[test]
fn progress_tick_wraps_at_five_hundred() {
    assert_eq!(progress_tick(0), (1, true));
    assert_eq!(progress_tick(1), (2, false));
    assert_eq!(progress_tick(499), (500, false));
    assert_eq!(progress_tick(500), (1, true));
}
