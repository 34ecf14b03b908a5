//! The cleanup coordinator: what a removal is taken to have done. A
//! removal never fails the run: a file that is missing and a file that
//! cannot be removed are both reported as not removed.

use vstd::prelude::*;
use crate::host::{remains, truthful};
use crate::protocol::RemovalResult;

verus! {

/// The removal took a file away.
pub open spec fn took_away(result: RemovalResult) -> bool {
    result == RemovalResult::Removed
}

/// Whether the removal took a file away.
pub fn removed(result: RemovalResult) -> (b: bool)
    ensures
        b == took_away(result),
{
    match result {
        RemovalResult::Removed => true,
        _ => false,
    }
}

/// Whether the file is known to be gone after the removal.
pub fn absent_after(result: RemovalResult) -> (b: bool)
    ensures
        b == (result != RemovalResult::Failed),
{
    match result {
        RemovalResult::Failed => false,
        _ => true,
    }
}

/// A removal can be repeated: of two removals of the same file that are
/// answered truthfully, one after the other, the second takes nothing away
/// where the first did, and the file is gone after the second where it was
/// gone after the first.
pub proof fn lemma_removal_can_be_repeated(
    present: bool,
    first: RemovalResult,
    second: RemovalResult,
)
    requires
        truthful(present, first),
        truthful(remains(present, first), second),
    ensures
        took_away(first) ==> !took_away(second),
        !remains(present, first) ==> !remains(remains(present, first), second),
        !(took_away(first) && took_away(second)),
{
}

} // verus!
