//! Fan-out over the chains of a multi-chain sequence: each chain runs the
//! resume path on its own, and a failure on one does not stop the others.
use vstd::prelude::*;
use crate::error::ScriptError;
use crate::resume::ResumeStatus;

verus! {

/// The positions of the chains whose resume path failed, in order.
pub fn failed_chains(outcomes: &Vec<Result<ResumeStatus, ScriptError>>) -> (r: Vec<usize>)
    ensures
        forall|k: int| 0 <= k < r@.len() ==> (#[trigger] r@[k]) < outcomes@.len() && outcomes@[r@[k] as int] is Err,
        forall|i: int| 0 <= i < outcomes@.len() && (#[trigger] outcomes@[i]) is Err ==> r@.contains(i as usize),
        forall|k: int, l: int| 0 <= k < l < r@.len() ==> r@[k] < r@[l],
{
    let mut r: Vec<usize> = Vec::new();
    let mut i: usize = 0;
    while i < outcomes.len()
        invariant
            i <= outcomes@.len(),
            forall|k: int| 0 <= k < r@.len() ==> (#[trigger] r@[k]) < i && outcomes@[r@[k] as int] is Err,
            forall|j: int| 0 <= j < i && (#[trigger] outcomes@[j]) is Err ==> r@.contains(j as usize),
            forall|k: int, l: int| 0 <= k < l < r@.len() ==> r@[k] < r@[l],
        decreases outcomes@.len() - i,
    {
        if outcomes[i].is_err() {
            let ghost before = r@;
            r.push(i);
            assert forall|j: int| 0 <= j <= i && (#[trigger] outcomes@[j]) is Err implies r@.contains(j as usize) by {
                if j < i {
                    assert(before.contains(j as usize));
                    let k = choose|k: int| 0 <= k < before.len() && before[k] == j as usize;
                    assert(r@[k] == j as usize);
                } else {
                    assert(r@[r@.len() - 1] == j as usize);
                }
            }
        }
        i = i + 1;
    }
    r
}

/// The multi-chain run succeeds only when every chain finished without error.
pub fn all_chains_succeeded(outcomes: &Vec<Result<ResumeStatus, ScriptError>>) -> (r: bool)
    ensures
        r == forall|i: int| 0 <= i < outcomes@.len() ==> (#[trigger] outcomes@[i]) is Ok,
{
    let mut i: usize = 0;
    while i < outcomes.len()
        invariant
            i <= outcomes@.len(),
            forall|j: int| 0 <= j < i ==> (#[trigger] outcomes@[j]) is Ok,
        decreases outcomes@.len() - i,
    {
        if outcomes[i].is_err() {
            return false;
        }
        i = i + 1;
    }
    true
}

} // verus!
