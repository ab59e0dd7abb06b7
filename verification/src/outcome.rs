//! What the result of a statement means for the caller.

use vstd::prelude::*;

verus! {

/// No row had the id that an operation was asked to work on.
#[derive(Clone, Copy, Debug, PartialEq, Eq, Structural)]
pub struct RowNotFound;

/// The outcome of deleting by id, from the number of rows that the
/// statement affected: no row is a failure, never a success.
pub fn delete_outcome(rows_affected: u64) -> (out: Result<(), RowNotFound>)
    ensures
        out is Err <==> rows_affected == 0,
{
    if rows_affected == 0 {
        Err(RowNotFound)
    } else {
        Ok(())
    }
}

} // verus!
