use vstd::prelude::*;

use crate::error::StoreError;

verus! {

/// Where the per-record protocol stands. Every phase except `Done` has
/// exactly one outstanding operation on the connection; the surrounding
/// system performs it and reports back whether it succeeded.
#[derive(Clone, Copy, PartialEq, Eq, Structural, Debug)]
pub enum Phase {
    /// The first insert attempt for the record is outstanding.
    FirstInsert,
    /// The first insert failed; closing the handle and opening a fresh
    /// connection is outstanding.
    Reconnect,
    /// The reconnect succeeded; the retried insert on the fresh handle is
    /// outstanding.
    RetryInsert,
    /// An insert succeeded; the commit of its transaction is outstanding.
    /// `retried` records whether the successful insert was the retry.
    Commit { retried: bool },
    /// The retried insert failed as well; a defensive rollback on the fresh
    /// handle is outstanding (tolerated as a no-op by the driver).
    Rollback,
    /// The record's processing is finished with the given outcome.
    Done { status: RecordStatus },
}

/// How processing one record ended.
#[derive(Clone, Copy, PartialEq, Eq, Structural, Debug)]
pub enum RecordStatus {
    /// Exactly one row was inserted and committed. `retried` records
    /// whether a reconnect and an insert retry were needed.
    Committed { retried: bool },
    /// The reconnect after a failed first insert itself failed: the record
    /// is abandoned without an insert retry, and the stale handle stays the
    /// worker's handle for the next record.
    ReconnectFailed,
    /// The commit after a successful insert failed: the record counts as
    /// failed; the row's fate on the server is indeterminate.
    CommitFailed { retried: bool },
    /// Both insert attempts failed; the rollback was issued and the record
    /// is dropped.
    Dropped,
    /// Both insert attempts failed and the defensive rollback failed too.
    /// The rollback failure is logged only; the record still surfaces the
    /// insert error.
    RollbackFailed,
}

/// The operation the surrounding system must perform next for a phase.
#[derive(Clone, Copy, PartialEq, Eq, Structural, Debug)]
pub enum ProtocolAction {
    /// Execute the parameterized single-row insert for the record.
    Insert,
    /// Close the current handle and open a fresh connection.
    Reconnect,
    /// Commit the currently open transaction.
    Commit,
    /// Roll back the currently open transaction.
    Rollback,
}

/// The transition table of the per-record protocol: from the current phase
/// and the success of the outstanding operation to the next phase.
pub open spec fn spec_step(p: Phase, ok: bool) -> Phase {
    match p {
        Phase::FirstInsert => if ok {
            Phase::Commit { retried: false }
        } else {
            Phase::Reconnect
        },
        Phase::Reconnect => if ok {
            Phase::RetryInsert
        } else {
            Phase::Done { status: RecordStatus::ReconnectFailed }
        },
        Phase::RetryInsert => if ok {
            Phase::Commit { retried: true }
        } else {
            Phase::Rollback
        },
        Phase::Commit { retried } => if ok {
            Phase::Done { status: RecordStatus::Committed { retried } }
        } else {
            Phase::Done { status: RecordStatus::CommitFailed { retried } }
        },
        Phase::Rollback => if ok {
            Phase::Done { status: RecordStatus::Dropped }
        } else {
            Phase::Done { status: RecordStatus::RollbackFailed }
        },
        Phase::Done { status } => Phase::Done { status },
    }
}

/// Advance the protocol by one observed outcome. A finished protocol stays
/// finished whatever is reported.
pub fn protocol_step(p: Phase, ok: bool) -> (q: Phase)
    ensures
        q == spec_step(p, ok),
{
    match p {
        Phase::FirstInsert => if ok {
            Phase::Commit { retried: false }
        } else {
            Phase::Reconnect
        },
        Phase::Reconnect => if ok {
            Phase::RetryInsert
        } else {
            Phase::Done { status: RecordStatus::ReconnectFailed }
        },
        Phase::RetryInsert => if ok {
            Phase::Commit { retried: true }
        } else {
            Phase::Rollback
        },
        Phase::Commit { retried } => if ok {
            Phase::Done { status: RecordStatus::Committed { retried } }
        } else {
            Phase::Done { status: RecordStatus::CommitFailed { retried } }
        },
        Phase::Rollback => if ok {
            Phase::Done { status: RecordStatus::Dropped }
        } else {
            Phase::Done { status: RecordStatus::RollbackFailed }
        },
        Phase::Done { status } => Phase::Done { status },
    }
}

/// The operation outstanding in a phase, if any; `None` exactly when the
/// protocol is finished.
pub fn next_action(p: Phase) -> (a: Option<ProtocolAction>)
    ensures
        a == spec_action(p),
        a is None <==> p is Done,
{
    match p {
        Phase::FirstInsert => Some(ProtocolAction::Insert),
        Phase::Reconnect => Some(ProtocolAction::Reconnect),
        Phase::RetryInsert => Some(ProtocolAction::Insert),
        Phase::Commit { retried: _ } => Some(ProtocolAction::Commit),
        Phase::Rollback => Some(ProtocolAction::Rollback),
        Phase::Done { status: _ } => None,
    }
}

/// The operation outstanding in a phase, if any.
pub open spec fn spec_action(p: Phase) -> Option<ProtocolAction> {
    match p {
        Phase::FirstInsert => Some(ProtocolAction::Insert),
        Phase::Reconnect => Some(ProtocolAction::Reconnect),
        Phase::RetryInsert => Some(ProtocolAction::Insert),
        Phase::Commit { retried: _ } => Some(ProtocolAction::Commit),
        Phase::Rollback => Some(ProtocolAction::Rollback),
        Phase::Done { status: _ } => None,
    }
}

/// The error a finished record surfaces, if any. A failed defensive
/// rollback does not escalate: it is logged only, and the record still
/// surfaces the doubly-failed insert as its error.
pub fn status_error(s: RecordStatus) -> (e: Option<StoreError>)
    ensures
        e == spec_status_error(s),
        e is None <==> s is Committed,
{
    match s {
        RecordStatus::Committed { retried: _ } => None,
        RecordStatus::ReconnectFailed => Some(StoreError::Connection),
        RecordStatus::CommitFailed { retried: _ } => Some(StoreError::Commit),
        RecordStatus::Dropped => Some(StoreError::Insert),
        RecordStatus::RollbackFailed => Some(StoreError::Insert),
    }
}

/// The error a finished record surfaces, if any. Both insert attempts
/// failing surfaces the insert error whether or not the defensive
/// rollback succeeded: a rollback failure is logged only.
pub open spec fn spec_status_error(s: RecordStatus) -> Option<StoreError> {
    match s {
        RecordStatus::Committed { retried: _ } => None,
        RecordStatus::ReconnectFailed => Some(StoreError::Connection),
        RecordStatus::CommitFailed { retried: _ } => Some(StoreError::Commit),
        RecordStatus::Dropped => Some(StoreError::Insert),
        RecordStatus::RollbackFailed => Some(StoreError::Insert),
    }
}

/// Which of one record's operations fail. Each flag describes the outcome
/// the connection would report if the protocol reached that operation; an
/// operation the protocol never reaches has no effect.
#[derive(Clone, Copy, PartialEq, Eq, Structural, Debug)]
pub struct RecordFaults {
    /// The first insert attempt fails.
    pub first_insert_fails: bool,
    /// The reconnect after a failed first insert fails.
    pub reconnect_fails: bool,
    /// The retried insert on the fresh handle fails.
    pub retry_insert_fails: bool,
    /// The commit after a successful insert fails.
    pub commit_fails: bool,
    /// The defensive rollback after a doubly-failed insert fails.
    pub rollback_fails: bool,
}

impl RecordFaults {
    /// A record whose every operation succeeds.
    pub fn none() -> (f: RecordFaults)
        ensures
            no_faults(f),
    {
        RecordFaults {
            first_insert_fails: false,
            reconnect_fails: false,
            retry_insert_fails: false,
            commit_fails: false,
            rollback_fails: false,
        }
    }
}

/// Every operation for the record succeeds.
pub open spec fn no_faults(f: RecordFaults) -> bool {
    &&& !f.first_insert_fails
    &&& !f.reconnect_fails
    &&& !f.retry_insert_fails
    &&& !f.commit_fails
    &&& !f.rollback_fails
}

/// The record's first insert fails once, and the reconnect, the retried
/// insert and the commit all succeed.
pub open spec fn single_fault_recovered(f: RecordFaults) -> bool {
    &&& f.first_insert_fails
    &&& !f.reconnect_fails
    &&& !f.retry_insert_fails
    &&& !f.commit_fails
}

/// Both the first and the retried insert fail; the reconnect between them
/// and the rollback after them succeed.
pub open spec fn double_fault(f: RecordFaults) -> bool {
    &&& f.first_insert_fails
    &&& !f.reconnect_fails
    &&& f.retry_insert_fails
    &&& !f.rollback_fails
}

/// The first insert fails and the reconnect fails too.
pub open spec fn reconnect_fault(f: RecordFaults) -> bool {
    f.first_insert_fails && f.reconnect_fails
}

/// How one record's run of the protocol ends, as a function of its faults.
pub open spec fn spec_status(f: RecordFaults) -> RecordStatus {
    if !f.first_insert_fails {
        if f.commit_fails {
            RecordStatus::CommitFailed { retried: false }
        } else {
            RecordStatus::Committed { retried: false }
        }
    } else if f.reconnect_fails {
        RecordStatus::ReconnectFailed
    } else if !f.retry_insert_fails {
        if f.commit_fails {
            RecordStatus::CommitFailed { retried: true }
        } else {
            RecordStatus::Committed { retried: true }
        }
    } else if f.rollback_fails {
        RecordStatus::RollbackFailed
    } else {
        RecordStatus::Dropped
    }
}

/// The record ends committed: its row is inserted exactly once and the
/// commit succeeds, on the first attempt or after one reconnect and retry.
pub open spec fn spec_committed(f: RecordFaults) -> bool {
    spec_status(f) is Committed
}

/// The protocol replaces the worker's handle by a fresh connection exactly
/// when the first insert fails and the reconnect succeeds. When the
/// reconnect fails the stale handle is kept.
pub open spec fn spec_reconnected(f: RecordFaults) -> bool {
    f.first_insert_fails && !f.reconnect_fails
}

/// A rollback is issued exactly when both insert attempts fail.
pub open spec fn spec_rollback_issued(f: RecordFaults) -> bool {
    f.first_insert_fails && !f.reconnect_fails && f.retry_insert_fails
}

/// How many insert attempts the record receives: two after a successful
/// reconnect, otherwise one — never more.
pub open spec fn spec_insert_attempts(f: RecordFaults) -> int {
    if spec_reconnected(f) {
        2
    } else {
        1
    }
}

/// A commit is issued exactly when some insert attempt succeeded: the
/// first one, or the retry after a successful reconnect.
pub open spec fn spec_commit_attempted(f: RecordFaults) -> bool {
    !f.first_insert_fails || (spec_reconnected(f) && !f.retry_insert_fails)
}

/// What running the protocol on one record did: the outcome, and which
/// operations were actually issued.
#[derive(Clone, Copy, PartialEq, Eq, Structural, Debug)]
pub struct RecordReport {
    /// How processing ended.
    pub status: RecordStatus,
    /// The record's row was committed exactly once.
    pub committed: bool,
    /// How many insert attempts were made (one or two).
    pub insert_attempts: u32,
    /// The handle was closed and replaced by a fresh connection.
    pub reconnected: bool,
    /// A commit was issued.
    pub commit_attempted: bool,
    /// A rollback was issued.
    pub rollback_issued: bool,
}

/// Run the per-record protocol to completion against the given operation
/// outcomes, stepping the transition table until the record is finished.
pub fn process_record(f: &RecordFaults) -> (rep: RecordReport)
    ensures
        rep.status == spec_status(*f),
        rep.committed == spec_committed(*f),
        rep.insert_attempts == spec_insert_attempts(*f),
        rep.reconnected == spec_reconnected(*f),
        rep.commit_attempted == spec_commit_attempted(*f),
        rep.rollback_issued == spec_rollback_issued(*f),
        f.reconnect_fails ==> rep.insert_attempts == 1 && !rep.reconnected,
        !(rep.status is ReconnectFailed) ==> rep.commit_attempted != rep.rollback_issued,
{
    let mut insert_attempts: u32 = 1;
    let mut reconnected: bool = false;
    let mut commit_attempted: bool = false;
    let mut rollback_issued: bool = false;

    let mut phase = protocol_step(Phase::FirstInsert, !f.first_insert_fails);
    if let Phase::Reconnect = phase {
        phase = protocol_step(phase, !f.reconnect_fails);
    }
    if let Phase::RetryInsert = phase {
        reconnected = true;
        insert_attempts = 2;
        phase = protocol_step(phase, !f.retry_insert_fails);
    }
    if let Phase::Commit { retried: _ } = phase {
        commit_attempted = true;
        phase = protocol_step(phase, !f.commit_fails);
    }
    if let Phase::Rollback = phase {
        rollback_issued = true;
        phase = protocol_step(phase, !f.rollback_fails);
    }
    let status = match phase {
        Phase::Done { status } => status,
        _ => {
            proof {
                assert(false);
            }
            RecordStatus::Dropped
        },
    };
    let committed = match status {
        RecordStatus::Committed { retried: _ } => true,
        _ => false,
    };
    RecordReport { status, committed, insert_attempts, reconnected, commit_attempted, rollback_issued }
}

} // verus!

