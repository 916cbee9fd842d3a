use vstd::prelude::*;

verus! {

/// One unit of data to be persisted: an identifier and ordered payload
/// fields. The worker does not interpret the fields; it only binds them
/// positionally into a fixed single-row insert statement.
#[derive(Clone, Copy, PartialEq, Eq, Structural, Debug)]
pub struct DataStruct {
    /// Identifier bound to the first column of the insert statement.
    pub id: i64,
    /// First payload field, bound to the second column.
    pub field0: i64,
    /// Second payload field, bound to the third column.
    pub field1: i64,
}

/// The identifiers of a sequence of records, in the same order.
pub open spec fn ids_of(rs: Seq<DataStruct>) -> Seq<i64> {
    rs.map_values(|r: DataStruct| r.id)
}

} // verus!
