use vstd::prelude::*;

verus! {

/// What a DDL or DML operation reports to its caller.
#[derive(Debug, Clone, PartialEq, Eq)]
pub enum Output {
    /// The number of rows (or tables, for a drop) that the operation touched.
    AffectedRows(usize),
}

} // verus!
