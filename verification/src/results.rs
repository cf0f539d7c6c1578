use vstd::prelude::*;

verus! {

/// How many rows a bulk write touched; the body of the delete endpoints'
/// responses.
#[derive(Clone, Copy, Debug, PartialEq, Eq, Structural)]
pub struct RowsAffected {
    pub rows_affected: u64,
}

} // verus!
