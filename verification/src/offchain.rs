//! Helpers of the interface that the node offers to offchain workers.

use vstd::prelude::*;

verus! {

/// Name under which the fork-aware local store is reported as missing.
pub const LOCAL_DB: &'static str = "LOCAL (fork-aware) DB";

/// Answers a call to an interface that is not offered to offchain workers yet.
///
/// The caller gets the default of the type it asked for; `name` says which
/// interface was asked and does not influence the result.
pub fn unavailable_yet<R: Default>(name: &str) -> (r: R)
    ensures
        call_ensures(R::default, (), r),
{
    R::default()
}

/// Whether a worker that waits for `ids` lets the request `ready` pass by: whether one
/// of the ids that it waits for is another than `ready`.
pub fn waits_for_another(ids: &[u64], ready: u64) -> (other: bool)
    ensures
        other == exists|i: int| 0 <= i < ids@.len() && ids@[i] != ready,
{
    let mut i: usize = 0;
    while i < ids.len()
        invariant
            i <= ids@.len(),
            forall|j: int| 0 <= j < i ==> ids@[j] == ready,
        decreases ids@.len() - i,
    {
        if ids[i] != ready {
            return true;
        }
        i += 1;
    }
    false
}

} // verus!
