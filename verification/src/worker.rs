use vstd::prelude::*;

use crate::protocol::{
    process_record, spec_committed, spec_reconnected, spec_rollback_issued, spec_status,
    spec_status_error, status_error, RecordFaults,
};
use crate::queue::{DequeueOutcome, RecordQueue};
use crate::record::DataStruct;

verus! {

/// Where the worker's consumption loop stands.
#[derive(Clone, Copy, PartialEq, Eq, Structural, Debug)]
pub enum WorkerState {
    /// The queue may still yield records.
    Running,
    /// The queue has signalled closure but the record already in hand is
    /// still run to completion.
    Draining,
    /// The loop has exited; ownership of the worker and its handle goes
    /// back to the caller.
    Stopped,
}

/// The identifiers of the records that end committed, in processing order.
/// A record's faults alone decide whether its row is committed.
pub open spec fn committed_ids_of(rs: Seq<DataStruct>, fs: Seq<RecordFaults>) -> Seq<i64>
    recommends
        rs.len() == fs.len(),
    decreases rs.len(),
{
    if rs.len() == 0 {
        Seq::empty()
    } else {
        committed_ids_of(rs.drop_last(), fs.drop_last()) + if spec_committed(fs.last()) {
            seq![rs.last().id]
        } else {
            Seq::empty()
        }
    }
}

/// How many records replace the worker's handle by a fresh connection
/// (a failed first insert followed by a successful reconnect).
pub open spec fn reconnect_count_of(fs: Seq<RecordFaults>) -> int
    decreases fs.len(),
{
    if fs.len() == 0 {
        0
    } else {
        reconnect_count_of(fs.drop_last()) + if spec_reconnected(fs.last()) {
            1int
        } else {
            0int
        }
    }
}

/// How many records have a rollback issued for them (both insert attempts
/// failed).
pub open spec fn rollback_count_of(fs: Seq<RecordFaults>) -> int
    decreases fs.len(),
{
    if fs.len() == 0 {
        0
    } else {
        rollback_count_of(fs.drop_last()) + if spec_rollback_issued(fs.last()) {
            1int
        } else {
            0int
        }
    }
}

/// How many records end in an error surfaced to the worker's log. Such an
/// error never terminates the loop: the next record is processed anyway.
pub open spec fn error_count_of(fs: Seq<RecordFaults>) -> int
    decreases fs.len(),
{
    if fs.len() == 0 {
        0
    } else {
        error_count_of(fs.drop_last()) + if spec_status_error(spec_status(fs.last())) is Some {
            1int
        } else {
            0int
        }
    }
}

/// One tick of the worker's progress counter: on every 500th record the
/// counter wraps to one and an observability signal is due (diagnostic
/// only; it has no effect on what is stored).
pub open spec fn spec_progress_step(c: int) -> (int, bool) {
    if c % 500 == 0 {
        (1, true)
    } else {
        (c + 1, false)
    }
}

/// The progress counter and the number of observability signals emitted
/// after `n` records.
pub open spec fn spec_progress(n: nat) -> (int, int)
    decreases n,
{
    if n == 0 {
        (0, 0)
    } else {
        let prev = spec_progress((n - 1) as nat);
        let st = spec_progress_step(prev.0);
        (st.0, prev.1 + if st.1 {
            1int
        } else {
            0int
        })
    }
}

/// Advance the worker's progress counter by one dequeued record and say
/// whether an observability signal is due now.
pub fn progress_tick(c: u32) -> (r: (u32, bool))
    requires
        c <= 500,
    ensures
        (r.0 as int, r.1) == spec_progress_step(c as int),
        1 <= r.0 <= 500,
{
    if c % 500 == 0 {
        (1, true)
    } else {
        (c + 1, false)
    }
}

/// The terminal state a finished worker hands back to its caller.
pub struct WorkerReport {
    /// The worker's state on return; always `Stopped`.
    pub state: WorkerState,
    /// The identifiers of the committed rows, in commit order.
    pub committed_ids: Vec<i64>,
    /// How many records were dequeued and run through the protocol.
    pub processed: usize,
    /// How many times the handle was replaced by a fresh connection.
    pub reconnect_count: usize,
    /// How many rollbacks were issued.
    pub rollback_count: usize,
    /// How many records ended in a logged error.
    pub error_count: usize,
    /// How many observability signals were emitted.
    pub progress_signals: usize,
}

/// The worker's consumption loop over a queue whose producing ends have
/// all been released: drain the queue in order, run every dequeued record
/// through the per-record protocol to completion, log and swallow any
/// per-record error, and stop once the queue signals closure. The faults
/// say, record by record, which of its operations would fail.
pub fn run_worker(queue: &mut RecordQueue, faults: &Vec<RecordFaults>) -> (rep: WorkerReport)
    requires
        old(queue).wf(),
        old(queue).shut,
        faults@.len() == old(queue).items@.len(),
    ensures
        final(queue).wf(),
        final(queue).items@.len() == 0,
        final(queue).capacity == old(queue).capacity,
        final(queue).shut,
        rep.state == WorkerState::Stopped,
        rep.processed == old(queue).items@.len(),
        rep.committed_ids@ == committed_ids_of(old(queue).items@, faults@),
        rep.reconnect_count == reconnect_count_of(faults@),
        rep.rollback_count == rollback_count_of(faults@),
        rep.error_count == error_count_of(faults@),
        rep.progress_signals == spec_progress(old(queue).items@.len() as nat).1,
{
    let ghost rs = old(queue).items@;
    let ghost fs = faults@;
    let total = queue.len();
    let mut state = WorkerState::Running;
    let mut committed_ids: Vec<i64> = Vec::new();
    let mut processed: usize = 0;
    let mut reconnect_count: usize = 0;
    let mut rollback_count: usize = 0;
    let mut error_count: usize = 0;
    let mut progress_signals: usize = 0;
    let mut counter: u32 = 0;
    loop
        invariant_except_break
            state == WorkerState::Running,
        invariant
            queue.wf(),
            queue.shut,
            queue.capacity == old(queue).capacity,
            rs == old(queue).items@,
            fs == faults@,
            fs.len() == rs.len(),
            rs.len() == total,
            processed <= rs.len(),
            queue.items@ == rs.skip(processed as int),
            committed_ids@ == committed_ids_of(
                rs.take(processed as int),
                fs.take(processed as int),
            ),
            reconnect_count == reconnect_count_of(fs.take(processed as int)),
            rollback_count == rollback_count_of(fs.take(processed as int)),
            error_count == error_count_of(fs.take(processed as int)),
            reconnect_count <= processed,
            rollback_count <= processed,
            error_count <= processed,
            progress_signals <= processed,
            counter <= 500,
            counter == spec_progress(processed as nat).0,
            progress_signals == spec_progress(processed as nat).1,
        ensures
            processed == rs.len(),
            queue.wf(),
            queue.shut,
            queue.capacity == old(queue).capacity,
            queue.items@.len() == 0,
            state == WorkerState::Stopped,
            committed_ids@ == committed_ids_of(rs.take(processed as int), fs.take(processed as int)),
            reconnect_count == reconnect_count_of(fs.take(processed as int)),
            rollback_count == rollback_count_of(fs.take(processed as int)),
            error_count == error_count_of(fs.take(processed as int)),
            progress_signals == spec_progress(processed as nat).1,
        decreases rs.len() - processed,
    {
        match queue.dequeue() {
            DequeueOutcome::Closed => {
                state = WorkerState::Stopped;
                break;
            },
            DequeueOutcome::Pending => {
                proof {
                    assert(false);
                }
            },
            DequeueOutcome::Received(r) => {
                proof {
                    assert(rs.skip(processed as int).len() > 0);
                    assert(r == rs[processed as int]);
                    assert(rs.skip(processed as int).remove(0) =~= rs.skip(processed as int + 1));
                }
                let (c2, signal) = progress_tick(counter);
                counter = c2;
                if signal {
                    progress_signals = progress_signals + 1;
                }
                let f = faults[processed];
                let rep = process_record(&f);
                if rep.committed {
                    committed_ids.push(r.id);
                }
                if rep.reconnected {
                    reconnect_count = reconnect_count + 1;
                }
                if rep.rollback_issued {
                    rollback_count = rollback_count + 1;
                }
                match status_error(rep.status) {
                    Some(_) => {
                        error_count = error_count + 1;
                    },
                    None => {},
                }
                proof {
                    assert(rs.take(processed as int + 1).drop_last() =~= rs.take(
                        processed as int,
                    ));
                    assert(fs.take(processed as int + 1).drop_last() =~= fs.take(
                        processed as int,
                    ));
                    assert(rs.take(processed as int + 1).last() == rs[processed as int]);
                    assert(fs.take(processed as int + 1).last() == fs[processed as int]);
                }
                processed = processed + 1;
            },
        }
    }
    proof {
        assert(rs.take(rs.len() as int) =~= rs);
        assert(fs.take(rs.len() as int) =~= fs);
    }
    WorkerReport {
        state,
        committed_ids,
        processed,
        reconnect_count,
        rollback_count,
        error_count,
        progress_signals,
    }
}

} // verus!
