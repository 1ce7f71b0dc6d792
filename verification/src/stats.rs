//! Latency statistics: arithmetic mean (truncated), minimum and maximum of a
//! list of per-attempt latencies, each present exactly when the list is
//! non-empty.
use vstd::prelude::*;

verus! {

/// Mathematical sum of a latency list.
pub open spec fn sum_of(s: Seq<u128>) -> int
    decreases s.len(),
{
    if s.len() == 0 {
        0
    } else {
        sum_of(s.drop_last()) + s.last()
    }
}

/// Minimum of a latency list; 0 when the list is empty.
pub open spec fn min_of(s: Seq<u128>) -> u128
    decreases s.len(),
{
    if s.len() == 0 {
        0
    } else if s.len() == 1 {
        s.last()
    } else if s.last() < min_of(s.drop_last()) {
        s.last()
    } else {
        min_of(s.drop_last())
    }
}

/// Maximum of a latency list; 0 when the list is empty.
pub open spec fn max_of(s: Seq<u128>) -> u128
    decreases s.len(),
{
    if s.len() == 0 {
        0
    } else if s.len() == 1 {
        s.last()
    } else if s.last() > max_of(s.drop_last()) {
        s.last()
    } else {
        max_of(s.drop_last())
    }
}

/// The statistics triple (average, minimum, maximum) over a latency list:
/// all three absent when the list is empty, otherwise the truncated mean and
/// the two extrema.
pub open spec fn stats_of(s: Seq<u128>) -> (Option<u128>, Option<u128>, Option<u128>) {
    if s.len() == 0 {
        (None, None, None)
    } else {
        (
            Some((sum_of(s) / s.len() as int) as u128),
            Some(min_of(s)),
            Some(max_of(s)),
        )
    }
}

/// The sum of a latency list is never negative.
proof fn lemma_sum_nonneg(s: Seq<u128>)
    ensures
        sum_of(s) >= 0,
    decreases s.len(),
{
    if s.len() > 0 {
        lemma_sum_nonneg(s.drop_last());
    }
}

/// The sum of a prefix never exceeds the sum of the whole list.
proof fn lemma_sum_take_le(s: Seq<u128>, j: int)
    requires
        0 <= j <= s.len(),
    ensures
        sum_of(s.take(j)) <= sum_of(s),
    decreases s.len(),
{
    if j < s.len() {
        assert(s.take(j) =~= s.drop_last().take(j));
        lemma_sum_take_le(s.drop_last(), j);
    } else {
        assert(s.take(j) =~= s);
    }
}

/// A list whose elements all lie below a bound has a sum of at most the
/// bound times the length.
pub(crate) proof fn lemma_sum_bounded(s: Seq<u128>, bound: int)
    requires
        forall|j: int| 0 <= j < s.len() ==> #[trigger] s[j] <= bound,
    ensures
        sum_of(s) <= s.len() * bound,
    decreases s.len(),
{
    if s.len() > 0 {
        assert forall|j: int| 0 <= j < s.drop_last().len() implies #[trigger] s.drop_last()[j]
            <= bound by {
            assert(s.drop_last()[j] == s[j]);
        }
        lemma_sum_bounded(s.drop_last(), bound);
        assert(s.last() == s[s.len() - 1]);
        assert((s.len() - 1) * bound + bound == s.len() * bound) by (nonlinear_arith);
    }
}

/// The minimum of a non-empty list is one of its elements and a lower bound
/// on all of them; the maximum is one of its elements and an upper bound.
pub proof fn lemma_extrema(s: Seq<u128>)
    requires
        s.len() > 0,
    ensures
        s.contains(min_of(s)),
        s.contains(max_of(s)),
        forall|j: int| 0 <= j < s.len() ==> min_of(s) <= #[trigger] s[j],
        forall|j: int| 0 <= j < s.len() ==> #[trigger] s[j] <= max_of(s),
    decreases s.len(),
{
    if s.len() == 1 {
        assert(s[0] == s.last());
    } else {
        lemma_extrema(s.drop_last());
        assert forall|j: int| 0 <= j < s.len() implies min_of(s) <= #[trigger] s[j] by {
            if j < s.len() - 1 {
                assert(s.drop_last()[j] == s[j]);
            }
        }
        assert forall|j: int| 0 <= j < s.len() implies #[trigger] s[j] <= max_of(s) by {
            if j < s.len() - 1 {
                assert(s.drop_last()[j] == s[j]);
            }
        }
        if min_of(s) == s.last() {
            assert(s[s.len() - 1] == s.last());
        } else {
            let k = choose|k: int| 0 <= k < s.len() - 1 && s.drop_last()[k] == min_of(s.drop_last());
            assert(s[k] == min_of(s));
        }
        if max_of(s) == s.last() {
            assert(s[s.len() - 1] == s.last());
        } else {
            let k = choose|k: int| 0 <= k < s.len() - 1 && s.drop_last()[k] == max_of(s.drop_last());
            assert(s[k] == max_of(s));
        }
    }
}

/// Latency statistics over a list of per-attempt latencies: the truncated
/// arithmetic mean, the minimum and the maximum, each absent exactly when the
/// list is empty.
pub fn calculate_stats(latencies: &[u128]) -> (r: (Option<u128>, Option<u128>, Option<u128>))
    requires
        sum_of(latencies@) <= u128::MAX,
    ensures
        r == stats_of(latencies@),
{
    if latencies.len() == 0 {
        return (None, None, None);
    }
    let first = latencies[0];
    let mut total: u128 = first;
    let mut minimum: u128 = first;
    let mut maximum: u128 = first;
    let mut i: usize = 1;
    proof {
        let t = latencies@.take(1);
        assert(t.drop_last() =~= Seq::<u128>::empty());
        assert(sum_of(t.drop_last()) == 0);
        assert(t.last() == latencies@[0]);
        assert(sum_of(t) == latencies@[0]);
    }
    while i < latencies.len()
        invariant
            1 <= i <= latencies@.len(),
            sum_of(latencies@) <= u128::MAX,
            total == sum_of(latencies@.take(i as int)),
            minimum == min_of(latencies@.take(i as int)),
            maximum == max_of(latencies@.take(i as int)),
        decreases latencies@.len() - i,
    {
        let x = latencies[i];
        proof {
            let pre = latencies@.take(i as int);
            let post = latencies@.take(i as int + 1);
            assert(post.drop_last() =~= pre);
            assert(post.last() == latencies@[i as int]);
            lemma_sum_take_le(latencies@, i as int + 1);
            lemma_sum_nonneg(pre);
        }
        total = total + x;
        if x < minimum {
            minimum = x;
        }
        if x > maximum {
            maximum = x;
        }
        i = i + 1;
    }
    proof {
        assert(latencies@.take(latencies@.len() as int) =~= latencies@);
        lemma_sum_nonneg(latencies@);
    }
    let avg = total / (latencies.len() as u128);
    (Some(avg), Some(minimum), Some(maximum))
}

} // verus!
