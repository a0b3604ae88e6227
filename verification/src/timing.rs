use vstd::prelude::*;

verus! {

/// The sum of the processing times.
pub open spec fn total_time(times: Seq<u64>) -> int
    decreases times.len(),
{
    if times.len() == 0 {
        0
    } else {
        total_time(times.drop_last()) + times.last()
    }
}

/// The total counts every time once: nothing for no times, and adding a
/// time adds exactly that time; the total of two lists put together is the
/// sum of their totals.
pub proof fn lemma_total_adds_each_time(times: Seq<u64>, t: u64, more: Seq<u64>)
    ensures
        total_time(Seq::<u64>::empty()) == 0,
        total_time(times.push(t)) == total_time(times) + t,
        total_time(times + more) == total_time(times) + total_time(more),
    decreases more.len(),
{
    assert(times.push(t).drop_last() =~= times);
    if more.len() == 0 {
        assert(times + more =~= times);
    } else {
        lemma_total_adds_each_time(times, t, more.drop_last());
        assert((times + more).drop_last() =~= times + more.drop_last());
    }
}

/// The total of a prefix never exceeds the total of the whole.
pub proof fn lemma_prefix_total_bounded(times: Seq<u64>, i: int)
    requires
        0 <= i <= times.len(),
    ensures
        0 <= total_time(times.take(i)) <= total_time(times),
    decreases times.len(),
{
    if i == times.len() {
        assert(times.take(i) =~= times);
        lemma_total_nonnegative(times);
    } else {
        lemma_prefix_total_bounded(times.drop_last(), i);
        assert(times.drop_last().take(i) =~= times.take(i));
    }
}

/// A total of processing times is never negative.
pub proof fn lemma_total_nonnegative(times: Seq<u64>)
    ensures
        total_time(times) >= 0,
    decreases times.len(),
{
    if times.len() > 0 {
        lemma_total_nonnegative(times.drop_last());
    }
}

/// Adds up the processing times, one after the other.
pub fn sum_times(times: &Vec<u64>) -> (sum: u64)
    requires
        total_time(times@) <= u64::MAX,
    ensures
        sum == total_time(times@),
{
    let mut sum: u64 = 0;
    let mut i: usize = 0;
    assert(times@.take(0) =~= Seq::<u64>::empty());
    while i < times.len()
        invariant
            i <= times.len(),
            total_time(times@) <= u64::MAX,
            sum == total_time(times@.take(i as int)),
        decreases times.len() - i,
    {
        proof {
            assert(times@.take(i + 1).drop_last() =~= times@.take(i as int));
            lemma_prefix_total_bounded(times@, i + 1);
        }
        sum = sum + times[i];
        i = i + 1;
    }
    assert(times@.take(i as int) =~= times@);
    sum
}

} // verus!
