//! Sums over a short window of a slice, with the bounds stated up front
//! instead of being checked on every access.

use vstd::prelude::*;
use vstd::slice::slice_subrange;

verus! {

/// The sum of the three elements that follow position `idx`.
pub open spec fn next_three(idx: int, nums: Seq<i32>) -> int {
    nums[idx + 1] + nums[idx + 2] + nums[idx + 3]
}

/// Adds three numbers that are known to add up within `i32`.
fn sum_of(a: i32, b: i32, c: i32) -> (sum: i32)
    requires
        i32::MIN <= a + b + c <= i32::MAX,
    ensures
        sum == a + b + c,
{
    (a as i64 + b as i64 + c as i64) as i32
}

/// The sum of the three elements after `idx`. The three must exist and
/// their sum must fit.
pub fn sum_next_three(idx: usize, nums: &[i32]) -> (sum: i32)
    requires
        idx + 3 < nums.len(),
        i32::MIN <= next_three(idx as int, nums@) <= i32::MAX,
    ensures
        sum == next_three(idx as int, nums@),
{
    sum_of(nums[idx + 1], nums[idx + 2], nums[idx + 3])
}

/// The same sum, computed after the length has been looked at once.
pub fn sum_next_three_assert_no_const(idx: usize, nums: &[i32]) -> (sum: i32)
    requires
        idx + 3 < nums.len(),
        i32::MIN <= next_three(idx as int, nums@) <= i32::MAX,
    ensures
        sum == next_three(idx as int, nums@),
{
    let len = nums.len();
    assert(len > 3);
    sum_of(nums[idx + 1], nums[idx + 2], nums[idx + 3])
}

/// The same sum, computed on the tail that starts at `idx`, where the
/// three positions are the constants one, two and three.
pub fn sum_next_three_optimized(idx: usize, nums: &[i32]) -> (sum: i32)
    requires
        idx + 3 < nums.len(),
        i32::MIN <= next_three(idx as int, nums@) <= i32::MAX,
    ensures
        sum == next_three(idx as int, nums@),
{
    let tail = slice_subrange(nums, idx, nums.len());
    assert(tail@.len() > 3);
    assert(tail@[1] == nums@[idx + 1] && tail@[2] == nums@[idx + 2] && tail@[3] == nums@[idx + 3]);
    sum_of(tail[1], tail[2], tail[3])
}

} // verus!
