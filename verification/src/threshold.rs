//! Selection of the numbers above a threshold.

use vstd::prelude::*;

verus! {

/// The numbers of `nums` that are larger than `limit`, in their order.
pub fn above(nums: &[usize], limit: usize) -> (kept: Vec<usize>)
    ensures
        kept@ == nums@.filter(|n: usize| n > limit),
{
    let ghost larger = |n: usize| n > limit;
    let mut kept: Vec<usize> = Vec::new();
    let mut i: usize = 0;
    proof {
        reveal(Seq::filter);
        assert(nums@.take(0) =~= Seq::<usize>::empty());
    }
    while i < nums.len()
        invariant
            i <= nums.len(),
            larger == (|n: usize| n > limit),
            kept@ =~= nums@.take(i as int).filter(larger),
        decreases nums.len() - i,
    {
        proof {
            reveal(Seq::filter);
            assert(nums@.take(i + 1).drop_last() =~= nums@.take(i as int));
        }
        if nums[i] > limit {
            kept.push(nums[i]);
        }
        i = i + 1;
    }
    assert(nums@.take(i as int) =~= nums@);
    kept
}

} // verus!
