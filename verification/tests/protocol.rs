use dbsink::error::StoreError;
use dbsink::protocol::{
    next_action, process_record, protocol_step, status_error, Phase, ProtocolAction, RecordFaults,
    RecordStatus,
};

fn faults(first: bool, rec: bool, retry: bool, commit: bool, roll: bool) -> RecordFaults {
    RecordFaults {
        first_insert_fails: first,
        reconnect_fails: rec,
        retry_insert_fails: retry,
        commit_fails: commit,
        rollback_fails: roll,
    }
}

#[test]
fn clean_record_commits_on_first_attempt() {
    let rep = process_record(&RecordFaults::none());
    assert_eq!(rep.status, RecordStatus::Committed { retried: false });
    assert!(rep.committed);
    assert_eq!(rep.insert_attempts, 1);
    assert!(!rep.reconnected);
    assert!(rep.commit_attempted);
    assert!(!rep.rollback_issued);
    assert_eq!(status_error(rep.status), None);
}

#[test]
fn single_fault_recovers_with_one_retry() {
    let rep = process_record(&faults(true, false, false, false, false));
    assert_eq!(rep.status, RecordStatus::Committed { retried: true });
    assert!(rep.committed);
    assert_eq!(rep.insert_attempts, 2);
    assert!(rep.reconnected);
    assert!(!rep.rollback_issued);
}

#[test]
fn double_fault_drops_record_with_rollback() {
    let rep = process_record(&faults(true, false, true, false, false));
    assert_eq!(rep.status, RecordStatus::Dropped);
    assert!(!rep.committed);
    assert_eq!(rep.insert_attempts, 2);
    assert!(rep.reconnected);
    assert!(!rep.commit_attempted);
    assert!(rep.rollback_issued);
    assert_eq!(status_error(rep.status), Some(StoreError::Insert));
}

#[test]
fn reconnect_failure_abandons_without_retry() {
    let rep = process_record(&faults(true, true, false, false, false));
    assert_eq!(rep.status, RecordStatus::ReconnectFailed);
    assert!(!rep.committed);
    assert_eq!(rep.insert_attempts, 1);
    assert!(!rep.reconnected);
    assert!(!rep.commit_attempted);
    assert!(!rep.rollback_issued);
    assert_eq!(status_error(rep.status), Some(StoreError::Connection));
}

#[test]
fn commit_failure_on_first_attempt_fails_record() {
    let rep = process_record(&faults(false, false, false, true, false));
    assert_eq!(rep.status, RecordStatus::CommitFailed { retried: false });
    assert!(!rep.committed);
    assert_eq!(status_error(rep.status), Some(StoreError::Commit));
}

#[test]
fn commit_failure_after_retry_fails_record() {
    let rep = process_record(&faults(true, false, false, true, false));
    assert_eq!(rep.status, RecordStatus::CommitFailed { retried: true });
    assert!(!rep.committed);
    assert!(rep.reconnected);
    assert_eq!(status_error(rep.status), Some(StoreError::Commit));
}

#[test]
fn rollback_failure_still_surfaces_the_insert_error() {
    let rep = process_record(&faults(true, false, true, false, true));
    assert_eq!(rep.status, RecordStatus::RollbackFailed);
    assert!(!rep.committed);
    assert!(rep.rollback_issued);
    assert_eq!(status_error(rep.status), Some(StoreError::Insert));
}

#[test]
fn transition_table_matches_design() {
    assert_eq!(
        protocol_step(Phase::FirstInsert, true),
        Phase::Commit { retried: false }
    );
    assert_eq!(protocol_step(Phase::FirstInsert, false), Phase::Reconnect);
    assert_eq!(protocol_step(Phase::Reconnect, true), Phase::RetryInsert);
    assert_eq!(
        protocol_step(Phase::Reconnect, false),
        Phase::Done {
            status: RecordStatus::ReconnectFailed
        }
    );
    assert_eq!(
        protocol_step(Phase::RetryInsert, true),
        Phase::Commit { retried: true }
    );
    assert_eq!(protocol_step(Phase::RetryInsert, false), Phase::Rollback);
    assert_eq!(
        protocol_step(Phase::Commit { retried: false }, true),
        Phase::Done {
            status: RecordStatus::Committed { retried: false }
        }
    );
    assert_eq!(
        protocol_step(Phase::Commit { retried: true }, false),
        Phase::Done {
            status: RecordStatus::CommitFailed { retried: true }
        }
    );
    assert_eq!(
        protocol_step(Phase::Rollback, true),
        Phase::Done {
            status: RecordStatus::Dropped
        }
    );
    assert_eq!(
        protocol_step(Phase::Rollback, false),
        Phase::Done {
            status: RecordStatus::RollbackFailed
        }
    );
}

#[test]
fn finished_protocol_stays_finished() {
    let done = Phase::Done {
        status: RecordStatus::Dropped,
    };
    assert_eq!(protocol_step(done, true), done);
    assert_eq!(protocol_step(done, false), done);
}

#[test]
fn each_phase_demands_its_operation() {
    assert_eq!(next_action(Phase::FirstInsert), Some(ProtocolAction::Insert));
    assert_eq!(next_action(Phase::Reconnect), Some(ProtocolAction::Reconnect));
    assert_eq!(next_action(Phase::RetryInsert), Some(ProtocolAction::Insert));
    assert_eq!(
        next_action(Phase::Commit { retried: true }),
        Some(ProtocolAction::Commit)
    );
    assert_eq!(next_action(Phase::Rollback), Some(ProtocolAction::Rollback));
    assert_eq!(
        next_action(Phase::Done {
            status: RecordStatus::Committed { retried: false }
        }),
        None
    );
}
