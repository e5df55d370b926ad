//! Summary statistics over a set of throughput samples.
//!
//! Samples are integer throughput scalars in kernel-defined units. The
//! summary of a non-empty sample sequence is its integer mean (the sum
//! divided by the length, rounded toward zero) together with the exact
//! extrema. A summary is never produced for an empty sequence.

use vstd::prelude::*;
use vstd::arithmetic::div_mod::{lemma_div_is_ordered, lemma_div_multiples_vanish};
use vstd::arithmetic::mul::lemma_mul_inequality;

verus! {

/// The sum of a sequence of samples, as a mathematical integer.
pub open spec fn sum_of(s: Seq<u64>) -> int
    decreases s.len(),
{
    if s.len() == 0 {
        0
    } else {
        sum_of(s.drop_last()) + s.last()
    }
}

/// The least sample of a sequence; `u64::MAX` for the empty sequence.
pub open spec fn min_of(s: Seq<u64>) -> u64
    decreases s.len(),
{
    if s.len() == 0 {
        u64::MAX
    } else if s.len() == 1 {
        s[0]
    } else if s.last() < min_of(s.drop_last()) {
        s.last()
    } else {
        min_of(s.drop_last())
    }
}

/// The greatest sample of a sequence; `0` for the empty sequence.
pub open spec fn max_of(s: Seq<u64>) -> u64
    decreases s.len(),
{
    if s.len() == 0 {
        0
    } else if s.len() == 1 {
        s[0]
    } else if s.last() > max_of(s.drop_last()) {
        s.last()
    } else {
        max_of(s.drop_last())
    }
}

/// The integer mean of a non-empty sequence.
pub open spec fn avg_of(s: Seq<u64>) -> int {
    sum_of(s) / s.len() as int
}

/// The derived statistics of one run: mean and exact extrema.
#[derive(Clone, Copy, PartialEq, Eq, Structural, Debug)]
pub struct SummaryStats {
    pub average: u64,
    pub min: u64,
    pub max: u64,
}

/// What it means for `s` to summarize `values` correctly.
pub open spec fn summary_ok(values: Seq<u64>, s: SummaryStats) -> bool {
    &&& s.average == avg_of(values)
    &&& s.min == min_of(values)
    &&& s.max == max_of(values)
}

/// Every sample lies between the extrema of its sequence.
pub proof fn lemma_extrema_bound(s: Seq<u64>)
    ensures
        forall|i: int| 0 <= i < s.len() ==> min_of(s) <= #[trigger] s[i] <= max_of(s),
    decreases s.len(),
{
    if s.len() > 0 {
        lemma_extrema_bound(s.drop_last());
        assert(forall|i: int| 0 <= i < s.len() - 1 ==> s.drop_last()[i] == #[trigger] s[i]);
    }
}

/// The extrema of a non-empty sequence are attained by some sample.
pub proof fn lemma_extrema_attained(s: Seq<u64>)
    requires
        s.len() >= 1,
    ensures
        exists|i: int| 0 <= i < s.len() && s[i] == min_of(s),
        exists|j: int| 0 <= j < s.len() && s[j] == max_of(s),
    decreases s.len(),
{
    if s.len() == 1 {
        assert(s[0] == min_of(s));
        assert(s[0] == max_of(s));
    } else {
        lemma_extrema_attained(s.drop_last());
        if min_of(s) == s.last() {
            assert(s[s.len() - 1] == min_of(s));
        } else {
            let i = choose|i: int| 0 <= i < s.len() - 1 && s.drop_last()[i] == min_of(
                s.drop_last(),
            );
            assert(s[i] == min_of(s));
        }
        if max_of(s) == s.last() {
            assert(s[s.len() - 1] == max_of(s));
        } else {
            let j = choose|j: int| 0 <= j < s.len() - 1 && s.drop_last()[j] == max_of(
                s.drop_last(),
            );
            assert(s[j] == max_of(s));
        }
    }
}

/// The sum of a sequence lies between `len * min` and `len * max`.
pub proof fn lemma_sum_bounds(s: Seq<u64>)
    ensures
        s.len() * min_of(s) <= sum_of(s) <= s.len() * max_of(s),
    decreases s.len(),
{
    if s.len() == 0 {
    } else if s.len() == 1 {
        assert(sum_of(s.drop_last()) == 0);
    } else {
        let t = s.drop_last();
        lemma_sum_bounds(t);
        assert(min_of(s) <= min_of(t) && min_of(s) <= s.last());
        assert(max_of(t) <= max_of(s) && s.last() <= max_of(s));
        lemma_mul_inequality(min_of(s) as int, min_of(t) as int, t.len() as int);
        lemma_mul_inequality(max_of(t) as int, max_of(s) as int, t.len() as int);
        assert(s.len() * min_of(s) == t.len() * min_of(s) + min_of(s)) by (nonlinear_arith)
            requires s.len() == t.len() + 1;
        assert(s.len() * max_of(s) == t.len() * max_of(s) + max_of(s)) by (nonlinear_arith)
            requires s.len() == t.len() + 1;
    }
}

/// The mean of a non-empty sample sequence lies within its extrema, and
/// every sample lies within them as well.
pub proof fn lemma_average_within_extrema(s: Seq<u64>)
    requires
        s.len() >= 1,
    ensures
        min_of(s) <= avg_of(s) <= max_of(s),
        forall|i: int| 0 <= i < s.len() ==> min_of(s) <= #[trigger] s[i] <= max_of(s),
{
    let n = s.len() as int;
    lemma_sum_bounds(s);
    lemma_extrema_bound(s);
    lemma_div_is_ordered(n * min_of(s), sum_of(s), n);
    lemma_div_is_ordered(sum_of(s), n * max_of(s), n);
    lemma_div_multiples_vanish(min_of(s) as int, n);
    lemma_div_multiples_vanish(max_of(s) as int, n);
}

/// Computes the summary statistics of a sample sequence: the integer mean
/// and the exact extrema. Returns `None` exactly when the sequence is
/// empty, since an empty run has no meaningful statistics.
pub fn summarize(values: &Vec<u64>) -> (r: Option<SummaryStats>)
    ensures
        r is Some <==> values@.len() >= 1,
        r matches Some(s) ==> summary_ok(values@, s),
{
    if values.len() == 0 {
        return None;
    }
    let mut sum: u128 = 0;
    let mut min: u64 = u64::MAX;
    let mut max: u64 = 0;
    let mut i: usize = 0;
    proof {
        assert(values@.subrange(0, 0) =~= Seq::<u64>::empty());
    }
    while i < values.len()
        invariant
            0 <= i <= values@.len(),
            values@.len() >= 1,
            sum == sum_of(values@.subrange(0, i as int)),
            sum <= i * (u64::MAX as int),
            min == min_of(values@.subrange(0, i as int)),
            max == max_of(values@.subrange(0, i as int)),
        decreases values@.len() - i,
    {
        let v = values[i];
        proof {
            let pre = values@.subrange(0, i as int);
            let post = values@.subrange(0, i + 1);
            assert(post.drop_last() =~= pre);
            assert(post.last() == values@[i as int]);
            lemma_mul_inequality(i + 1, u64::MAX as int, u64::MAX as int);
            assert((i + 1) * (u64::MAX as int) == i * (u64::MAX as int) + u64::MAX as int)
                by (nonlinear_arith);
        }
        sum = sum + v as u128;
        if i == 0 || v < min {
            min = v;
        }
        if i == 0 || v > max {
            max = v;
        }
        i = i + 1;
    }
    proof {
        assert(values@.subrange(0, values@.len() as int) =~= values@);
        lemma_sum_bounds(values@);
        lemma_div_is_ordered(sum_of(values@), values@.len() * max_of(values@), values@.len() as int);
        lemma_div_multiples_vanish(max_of(values@) as int, values@.len() as int);
    }
    let average = (sum / (values.len() as u128)) as u64;
    Some(SummaryStats { average, min, max })
}

} // verus!
