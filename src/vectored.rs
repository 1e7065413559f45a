//! Spreading a datagram over several buffers, in order.
use vstd::prelude::*;

verus! {

/// The total length of the buffers.
pub open spec fn total_len(lens: Seq<usize>) -> int
    decreases lens.len(),
{
    if lens.len() == 0 {
        0
    } else {
        total_len(lens.drop_last()) + lens.last()
    }
}

/// How many of `size` bytes, laid out over the buffers in order, land in
/// buffer `i`: what is left after the buffers before it, up to its length.
pub open spec fn share(lens: Seq<usize>, size: int, i: int) -> int {
    let left = size - total_len(lens.take(i));
    if left <= 0 {
        0
    } else if left < lens[i] {
        left
    } else {
        lens[i] as int
    }
}

/// For buffers of lengths `lens`, how many of `size` received bytes each one
/// takes when they are filled in order.
pub fn scatter_counts(lens: &Vec<usize>, size: usize) -> (r: Vec<usize>)
    ensures
        r@.len() == lens@.len(),
        forall|i: int| 0 <= i < lens@.len() ==> r@[i] == share(lens@, size as int, i),
{
    let mut counts: Vec<usize> = Vec::new();
    let mut left: usize = size;
    let mut i: usize = 0;
    while i < lens.len()
        invariant
            i <= lens@.len(),
            counts@.len() == i,
            forall|k: int| 0 <= k < i ==> counts@[k] == share(lens@, size as int, k),
            left == if size - total_len(lens@.take(i as int)) <= 0 {
                0
            } else {
                size - total_len(lens@.take(i as int))
            },
        decreases lens@.len() - i,
    {
        let len = lens[i];
        assert(lens@.take(i + 1).drop_last() =~= lens@.take(i as int));
        let take = if left < len {
            left
        } else {
            len
        };
        counts.push(take);
        left = left - take;
        i = i + 1;
    }
    counts
}

} // verus!
