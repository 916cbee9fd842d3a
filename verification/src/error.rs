use vstd::prelude::*;

verus! {

/// Why persisting one record failed. All of these are recovered at the
/// per-record boundary: none of them terminates the worker. Only a failure
/// to open the very first connection aborts worker startup.
#[derive(Clone, Copy, PartialEq, Eq, Structural, Debug)]
pub enum StoreError {
    /// A connection could not be established or re-established. During the
    /// per-record protocol this means the reconnect after a failed insert
    /// failed; the record is abandoned without an insert retry.
    Connection,
    /// Both the first and the retried insert attempt failed; the record is
    /// dropped after a defensive rollback. This is the record's surfaced
    /// error whether or not that rollback succeeded.
    Insert,
    /// The commit after a successful insert failed; the record counts as
    /// failed and is not retried.
    Commit,
    /// The defensive rollback after a doubly-failed insert itself failed.
    /// Logged only; it never escalates, so no record surfaces it as its
    /// terminal error — the doubly-failed insert does.
    Rollback,
}

} // verus!
