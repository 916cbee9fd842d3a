use vstd::prelude::*;

use crate::protocol::{
    double_fault, no_faults, reconnect_fault, single_fault_recovered, spec_committed,
    spec_insert_attempts, spec_reconnected, spec_rollback_issued, spec_status, spec_status_error,
    RecordFaults,
};
use crate::record::{ids_of, DataStruct};
use crate::worker::{committed_ids_of, error_count_of, reconnect_count_of, rollback_count_of};

verus! {

/// A record's outcome depends on its own faults alone, so a run splits at
/// any point: what two runs one after the other commit and count is what
/// one run over the concatenation does. In particular one record's failure
/// never blocks the records after it.
pub proof fn lemma_run_decomposes(
    rs1: Seq<DataStruct>,
    fs1: Seq<RecordFaults>,
    rs2: Seq<DataStruct>,
    fs2: Seq<RecordFaults>,
)
    requires
        rs1.len() == fs1.len(),
        rs2.len() == fs2.len(),
    ensures
        committed_ids_of(rs1 + rs2, fs1 + fs2) == committed_ids_of(rs1, fs1) + committed_ids_of(
            rs2,
            fs2,
        ),
        reconnect_count_of(fs1 + fs2) == reconnect_count_of(fs1) + reconnect_count_of(fs2),
        rollback_count_of(fs1 + fs2) == rollback_count_of(fs1) + rollback_count_of(fs2),
        error_count_of(fs1 + fs2) == error_count_of(fs1) + error_count_of(fs2),
    decreases rs2.len(),
{
    if rs2.len() == 0 {
        assert(rs1 + rs2 =~= rs1);
        assert(fs1 + fs2 =~= fs1);
        assert(committed_ids_of(rs2, fs2) =~= Seq::<i64>::empty());
        assert(committed_ids_of(rs1, fs1) + committed_ids_of(rs2, fs2) =~= committed_ids_of(
            rs1,
            fs1,
        ));
    } else {
        lemma_run_decomposes(rs1, fs1, rs2.drop_last(), fs2.drop_last());
        assert((rs1 + rs2).drop_last() =~= rs1 + rs2.drop_last());
        assert((fs1 + fs2).drop_last() =~= fs1 + fs2.drop_last());
        assert((rs1 + rs2).last() == rs2.last());
        assert((fs1 + fs2).last() == fs2.last());
    }
}

/// What one record alone commits and counts, by its faults.
proof fn lemma_singleton_run(r: DataStruct, f: RecordFaults)
    ensures
        committed_ids_of(seq![r], seq![f]) == if spec_committed(f) {
            seq![r.id]
        } else {
            Seq::<i64>::empty()
        },
        reconnect_count_of(seq![f]) == if spec_reconnected(f) {
            1int
        } else {
            0int
        },
        rollback_count_of(seq![f]) == if spec_rollback_issued(f) {
            1int
        } else {
            0int
        },
        error_count_of(seq![f]) == if spec_status_error(spec_status(f)) is Some {
            1int
        } else {
            0int
        },
{
    assert(seq![r].drop_last() =~= Seq::<DataStruct>::empty());
    assert(seq![f].drop_last() =~= Seq::<RecordFaults>::empty());
    assert(committed_ids_of(Seq::<DataStruct>::empty(), Seq::<RecordFaults>::empty())
        == Seq::<i64>::empty());
    assert(reconnect_count_of(Seq::<RecordFaults>::empty()) == 0);
    assert(rollback_count_of(Seq::<RecordFaults>::empty()) == 0);
    assert(error_count_of(Seq::<RecordFaults>::empty()) == 0);
    assert(seq![r].last() == r);
    assert(seq![f].last() == f);
    if spec_committed(f) {
        assert(Seq::<i64>::empty() + seq![r.id] =~= seq![r.id]);
    } else {
        assert(Seq::<i64>::empty() + Seq::<i64>::empty() =~= Seq::<i64>::empty());
    }
}

/// Happy path: with no injected faults every record ends with exactly one
/// committed row, in enqueue order, and no rollback or reconnect is ever
/// issued and no error is ever logged.
pub proof fn lemma_happy_path(rs: Seq<DataStruct>, fs: Seq<RecordFaults>)
    requires
        rs.len() == fs.len(),
        forall|i: int| 0 <= i < fs.len() ==> no_faults(#[trigger] fs[i]),
    ensures
        committed_ids_of(rs, fs) == ids_of(rs),
        reconnect_count_of(fs) == 0,
        rollback_count_of(fs) == 0,
        error_count_of(fs) == 0,
    decreases rs.len(),
{
    if rs.len() == 0 {
        assert(ids_of(rs) =~= Seq::<i64>::empty());
    } else {
        lemma_happy_path(rs.drop_last(), fs.drop_last());
        assert(no_faults(fs[fs.len() - 1]));
        assert(committed_ids_of(rs, fs) =~= ids_of(rs.drop_last()) + seq![rs.last().id]);
        assert(ids_of(rs) =~= ids_of(rs.drop_last()) + seq![rs.last().id]);
    }
}

/// Single-fault recovery: if exactly one record's first insert fails and
/// its reconnect, retried insert and commit succeed, every record — the
/// faulted one included — is committed exactly once, in order, with
/// exactly one reconnect and no rollback.
pub proof fn lemma_single_fault_recovery(rs: Seq<DataStruct>, fs: Seq<RecordFaults>, i: int)
    requires
        rs.len() == fs.len(),
        0 <= i < fs.len(),
        single_fault_recovered(fs[i]),
        forall|j: int| 0 <= j < fs.len() && j != i ==> no_faults(#[trigger] fs[j]),
    ensures
        committed_ids_of(rs, fs) == ids_of(rs),
        reconnect_count_of(fs) == 1,
        rollback_count_of(fs) == 0,
        error_count_of(fs) == 0,
{
    let rs1 = rs.take(i);
    let fs1 = fs.take(i);
    let rsm = seq![rs[i]];
    let fsm = seq![fs[i]];
    let rs2 = rs.skip(i + 1);
    let fs2 = fs.skip(i + 1);
    assert(rs =~= rs1 + (rsm + rs2));
    assert(fs =~= fs1 + (fsm + fs2));
    lemma_happy_path(rs1, fs1);
    lemma_happy_path(rs2, fs2);
    lemma_singleton_run(rs[i], fs[i]);
    lemma_run_decomposes(rsm, fsm, rs2, fs2);
    lemma_run_decomposes(rs1, fs1, rsm + rs2, fsm + fs2);
    assert(ids_of(rs) =~= ids_of(rs1) + (seq![rs[i].id] + ids_of(rs2)));
}

/// Double-fault drop: if both insert attempts for one record fail (and its
/// rollback succeeds), no row for it is persisted, exactly one rollback is
/// issued, exactly one error is logged, and every other record — those
/// after it included — is committed normally, in order.
pub proof fn lemma_double_fault_drop(rs: Seq<DataStruct>, fs: Seq<RecordFaults>, i: int)
    requires
        rs.len() == fs.len(),
        0 <= i < fs.len(),
        double_fault(fs[i]),
        forall|j: int| 0 <= j < fs.len() && j != i ==> no_faults(#[trigger] fs[j]),
    ensures
        committed_ids_of(rs, fs) == ids_of(rs.take(i)) + ids_of(rs.skip(i + 1)),
        reconnect_count_of(fs) == 1,
        rollback_count_of(fs) == 1,
        error_count_of(fs) == 1,
{
    let rs1 = rs.take(i);
    let fs1 = fs.take(i);
    let rsm = seq![rs[i]];
    let fsm = seq![fs[i]];
    let rs2 = rs.skip(i + 1);
    let fs2 = fs.skip(i + 1);
    assert(rs =~= rs1 + (rsm + rs2));
    assert(fs =~= fs1 + (fsm + fs2));
    lemma_happy_path(rs1, fs1);
    lemma_happy_path(rs2, fs2);
    lemma_singleton_run(rs[i], fs[i]);
    lemma_run_decomposes(rsm, fsm, rs2, fs2);
    lemma_run_decomposes(rs1, fs1, rsm + rs2, fsm + fs2);
}

/// Reconnect-failure continuation: if one record's first insert fails and
/// the reconnect fails too, no insert retry is made for it (a single
/// attempt), the handle is never replaced, no rollback is issued, exactly
/// one error is logged, and the records after it are still processed and
/// committed against the retained handle.
pub proof fn lemma_reconnect_failure_continuation(
    rs: Seq<DataStruct>,
    fs: Seq<RecordFaults>,
    i: int,
)
    requires
        rs.len() == fs.len(),
        0 <= i < fs.len(),
        reconnect_fault(fs[i]),
        forall|j: int| 0 <= j < fs.len() && j != i ==> no_faults(#[trigger] fs[j]),
    ensures
        committed_ids_of(rs, fs) == ids_of(rs.take(i)) + ids_of(rs.skip(i + 1)),
        spec_insert_attempts(fs[i]) == 1,
        reconnect_count_of(fs) == 0,
        rollback_count_of(fs) == 0,
        error_count_of(fs) == 1,
{
    let rs1 = rs.take(i);
    let fs1 = fs.take(i);
    let rsm = seq![rs[i]];
    let fsm = seq![fs[i]];
    let rs2 = rs.skip(i + 1);
    let fs2 = fs.skip(i + 1);
    assert(rs =~= rs1 + (rsm + rs2));
    assert(fs =~= fs1 + (fsm + fs2));
    lemma_happy_path(rs1, fs1);
    lemma_happy_path(rs2, fs2);
    lemma_singleton_run(rs[i], fs[i]);
    lemma_run_decomposes(rsm, fsm, rs2, fs2);
    lemma_run_decomposes(rs1, fs1, rsm + rs2, fsm + fs2);
}

} // verus!

