//! Layout of several batches of particles end to end in one buffer.

use vstd::prelude::*;
use std::ops::Range;

verus! {

/// The sum of the lengths `lens`.
pub open spec fn total_len(lens: Seq<usize>) -> int
    decreases lens.len(),
{
    if lens.len() == 0 {
        0
    } else {
        total_len(lens.drop_last()) + lens.last()
    }
}

/// The lengths up to any point add up to no more than all of them.
pub proof fn lemma_total_len_prefix(lens: Seq<usize>, k: int)
    requires
        0 <= k <= lens.len(),
    ensures
        0 <= total_len(lens.subrange(0, k)) <= total_len(lens),
    decreases lens.len(),
{
    if k == lens.len() {
        assert(lens.subrange(0, k) =~= lens);
        if lens.len() > 0 {
            lemma_total_len_prefix(lens.drop_last(), k - 1);
        }
    } else {
        lemma_total_len_prefix(lens.drop_last(), k);
        assert(lens.drop_last().subrange(0, k) =~= lens.subrange(0, k));
    }
}

/// One more length adds itself to the sum.
pub proof fn lemma_total_len_step(lens: Seq<usize>, k: int)
    requires
        0 <= k < lens.len(),
    ensures
        total_len(lens.subrange(0, k + 1)) == total_len(lens.subrange(0, k)) + lens[k],
{
    assert(lens.subrange(0, k + 1).drop_last() =~= lens.subrange(0, k));
}

/// The place of each batch in a buffer that holds the batches one after the
/// other, and the number of items in all. Batch `k` takes the range that
/// starts where the batches before it end and is as long as the batch. Where
/// there is no item at all, no range is given.
pub fn batch_ranges(lens: &Vec<usize>) -> (r: (Vec<Range<u64>>, u64))
    requires
        total_len(lens@) <= u64::MAX,
    ensures
        r.1 == total_len(lens@),
        r.0@.len() == (if r.1 == 0 { 0 } else { lens@.len() }),
        forall|k: int|
            0 <= k < r.0@.len() ==> (#[trigger] r.0@[k]).start == total_len(lens@.subrange(0, k)),
        forall|k: int| 0 <= k < r.0@.len() ==> (#[trigger] r.0@[k]).end == r.0@[k].start + lens@[k],
        forall|k: int| 0 < k < r.0@.len() ==> (#[trigger] r.0@[k]).start == r.0@[k - 1].end,
        r.0@.len() > 0 ==> r.0@[0].start == 0 && r.0@.last().end == r.1,
{
    let mut total_count: u64 = 0;
    let mut i: usize = 0;
    assert(lens@.subrange(0, 0) =~= Seq::<usize>::empty());
    while i < lens.len()
        invariant
            i <= lens.len(),
            total_len(lens@) <= u64::MAX,
            total_count == total_len(lens@.subrange(0, i as int)),
        decreases lens.len() - i,
    {
        proof {
            lemma_total_len_step(lens@, i as int);
            lemma_total_len_prefix(lens@, i + 1);
        }
        total_count = total_count + lens[i] as u64;
        i = i + 1;
    }
    assert(lens@.subrange(0, lens.len() as int) =~= lens@);

    let mut ranges: Vec<Range<u64>> = Vec::new();
    if total_count == 0 {
        return (ranges, total_count);
    }
    let mut start: u64 = 0;
    let mut k: usize = 0;
    while k < lens.len()
        invariant
            k <= lens.len(),
            total_len(lens@) <= u64::MAX,
            ranges@.len() == k,
            start == total_len(lens@.subrange(0, k as int)),
            forall|j: int|
                0 <= j < k ==> (#[trigger] ranges@[j]).start == total_len(lens@.subrange(0, j)),
            forall|j: int| 0 <= j < k ==> (#[trigger] ranges@[j]).end == ranges@[j].start + lens@[j],
        decreases lens.len() - k,
    {
        proof {
            lemma_total_len_step(lens@, k as int);
            lemma_total_len_prefix(lens@, k + 1);
        }
        let end: u64 = start + lens[k] as u64;
        ranges.push(start..end);
        start = end;
        k = k + 1;
    }
    proof {
        assert forall|j: int| 0 < j < ranges@.len() implies (#[trigger] ranges@[j]).start
            == ranges@[j - 1].end by {
            lemma_total_len_step(lens@, j - 1);
        }
        lemma_total_len_step(lens@, lens@.len() - 1);
    }
    (ranges, total_count)
}

} // verus!
