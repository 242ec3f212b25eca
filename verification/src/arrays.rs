//! Array helpers: building a counting sequence and summing a slice.

use vstd::prelude::*;

verus! {

/// The left-to-right sum of a sequence of machine integers, as a
/// mathematical integer.
pub open spec fn seq_sum(s: Seq<i32>) -> int
    decreases s.len(),
{
    if s.len() == 0 {
        0
    } else {
        seq_sum(s.drop_last()) + s.last()
    }
}

/// The sequence `0, 1, ..., size - 1`.
pub fn create_array(size: usize) -> (r: Vec<i32>)
    requires
        size <= i32::MAX,
    ensures
        r@.len() == size,
        forall|i: int| 0 <= i < size ==> r@[i] == i,
{
    let mut arr: Vec<i32> = Vec::new();
    let mut i: usize = 0;
    while i < size
        invariant
            size <= i32::MAX,
            0 <= i <= size,
            arr@.len() == i,
            forall|j: int| 0 <= j < i ==> arr@[j] == j,
        decreases size - i,
    {
        arr.push(i as i32);
        i = i + 1;
    }
    arr
}

/// Sums the elements from left to right; the empty slice sums to zero.
/// Every intermediate sum must fit the machine integer range, as it must
/// wherever the sum is taken with machine addition.
pub fn sum_array(arr: &[i32]) -> (r: i32)
    requires
        forall|i: int|
            0 <= i <= arr@.len() ==> i32::MIN <= seq_sum(#[trigger] arr@.take(i)) <= i32::MAX,
    ensures
        r == seq_sum(arr@),
{
    let n = arr.len();
    let mut total: i32 = 0;
    let mut i: usize = 0;
    proof {
        assert(arr@.take(0) =~= Seq::<i32>::empty());
    }
    while i < n
        invariant
            n == arr@.len(),
            0 <= i <= n,
            total == seq_sum(arr@.take(i as int)),
            forall|k: int|
                0 <= k <= arr@.len() ==> i32::MIN <= seq_sum(#[trigger] arr@.take(k)) <= i32::MAX,
        decreases n - i,
    {
        proof {
            assert(arr@.take(i + 1).drop_last() =~= arr@.take(i as int));
            assert(arr@.take(i + 1).last() == arr@[i as int]);
        }
        total = total + arr[i];
        i = i + 1;
    }
    proof {
        assert(arr@.take(n as int) =~= arr@);
    }
    total
}

} // verus!
