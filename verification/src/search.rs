//! Binary search, with sortedness as a precondition instead of a check
//! that only debug builds make.

use core::cmp::Ordering;
use vstd::prelude::*;
use vstd::std_specs::cmp::OrdSpec;

verus! {

/// `a` is ordered before `b`.
pub open spec fn before<T: Ord>(a: T, b: T) -> bool {
    a.cmp_spec(&b) == Ordering::Less
}

/// `a` is ordered after `b`.
pub open spec fn after<T: Ord>(a: T, b: T) -> bool {
    a.cmp_spec(&b) == Ordering::Greater
}

/// `a` and `b` are equal in the order.
pub open spec fn level<T: Ord>(a: T, b: T) -> bool {
    a.cmp_spec(&b) == Ordering::Equal
}

/// The comparison of `T` does what it is specified to do, and what stands
/// at or before something that stands before a third, stands before the
/// third; likewise for after. Every total order has these properties.
pub open spec fn lawful<T: Ord>() -> bool {
    &&& T::obeys_cmp_spec()
    &&& forall|a: T, b: T, c: T|
        #![trigger after(a, b), before(b, c)]
        !after(a, b) && before(b, c) ==> before(a, c)
    &&& forall|a: T, b: T, c: T|
        #![trigger after(a, b), after(a, c)]
        !after(a, b) && after(a, c) ==> after(b, c)
}

/// No element is ordered after a later one.
pub open spec fn is_sorted<T: Ord>(items: Seq<T>) -> bool {
    forall|i: int, j: int| 0 <= i <= j < items.len() ==> !after(items[i], items[j])
}

/// The element at a position.
pub open spec fn element<T>(items: Seq<T>, position: usize) -> T {
    items[position as int]
}

/// Looks for `target` in a sorted slice. `Ok` holds a position whose
/// element equals the target. `Err` holds the position at which the target
/// would have to be inserted to keep the slice sorted: everything before
/// is smaller, everything from there on is larger, so the target is not in
/// the slice.
pub fn binary_search<T>(sorted_items: &[T], target: T) -> (found: Result<usize, usize>) where
    T: Ord,

    requires
        lawful::<T>(),
        is_sorted(sorted_items@),
    ensures
        match found {
            Ok(position) => position < sorted_items@.len() && level(
                element(sorted_items@, position),
                target,
            ),
            Err(position) => {
                &&& position <= sorted_items@.len()
                &&& forall|k: int| 0 <= k < position ==> before(sorted_items@[k], target)
                &&& forall|k: int|
                    position <= k < sorted_items@.len() ==> after(sorted_items@[k], target)
            },
        },
{
    let mut low: usize = 0;
    let mut high: usize = sorted_items.len();
    while low < high
        invariant
            low <= high <= sorted_items@.len(),
            lawful::<T>(),
            is_sorted(sorted_items@),
            forall|k: int| 0 <= k < low ==> before(sorted_items@[k], target),
            forall|k: int| high <= k < sorted_items@.len() ==> after(sorted_items@[k], target),
        decreases high - low,
    {
        let middle = low + (high - low) / 2;
        let ghost probe = element(sorted_items@, middle);
        match sorted_items[middle].cmp(&target) {
            Ordering::Equal => {
                return Ok(middle);
            },
            Ordering::Less => {
                assert forall|k: int| 0 <= k < middle + 1 implies before(
                    sorted_items@[k],
                    target,
                ) by {
                    assert(!after(sorted_items@[k], probe));
                    assert(before(probe, target));
                }
                low = middle + 1;
            },
            Ordering::Greater => {
                assert forall|k: int| middle <= k < sorted_items@.len() implies after(
                    sorted_items@[k],
                    target,
                ) by {
                    assert(!after(probe, sorted_items@[k]));
                    assert(after(probe, target));
                }
                high = middle;
            },
        }
    }
    Err(low)
}

/// The unsigned 64-bit integers are lawfully ordered, and sortedness of a
/// sequence of them is sortedness by `<=`.
pub proof fn lemma_u64_lawful()
    ensures
        lawful::<u64>(),
        forall|items: Seq<u64>|
            #[trigger] is_sorted(items) <==> forall|i: int, j: int|
                0 <= i <= j < items.len() ==> items[i] <= items[j],
        forall|a: u64, b: u64|
            #![trigger before(a, b)]
            #![trigger after(a, b)]
            #![trigger level(a, b)]
            (before(a, b) <==> a < b) && (after(a, b) <==> a > b) && (level(a, b) <==> a == b),
{
    assert forall|items: Seq<u64>| #[trigger]
        is_sorted(items) <==> forall|i: int, j: int|
            0 <= i <= j < items.len() ==> items[i] <= items[j] by {
        if is_sorted(items) {
            assert forall|i: int, j: int| 0 <= i <= j < items.len() implies items[i]
                <= items[j] by {
                assert(!after(items[i], items[j]));
            }
        }
    }
}

} // verus!
