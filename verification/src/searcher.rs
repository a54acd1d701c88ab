//! Picking a cube out of the devices a scan discovered.

use vstd::prelude::*;

verus! {

/// The index of the nearest device: the one with the greatest signal
/// strength, the last such when several tie. No device gives no index.
pub fn nearest_index(rssis: &Vec<i32>) -> (r: Option<usize>)
    ensures
        r is None <==> rssis@.len() == 0,
        r matches Some(i) ==> i < rssis@.len() && (forall|j: int|
            0 <= j < rssis@.len() ==> rssis@[j] <= rssis@[i as int]) && (forall|j: int|
            i < j < rssis@.len() ==> rssis@[j] < rssis@[i as int]),
{
    if rssis.len() == 0 {
        return None;
    }
    let mut best: usize = 0;
    let mut i: usize = 1;
    while i < rssis.len()
        invariant
            best < i <= rssis@.len(),
            forall|j: int| 0 <= j < i ==> rssis@[j] <= rssis@[best as int],
            forall|j: int| best < j < i ==> rssis@[j] < rssis@[best as int],
        decreases rssis@.len() - i,
    {
        if rssis[i] >= rssis[best] {
            best = i;
        }
        i += 1;
    }
    Some(best)
}

} // verus!
