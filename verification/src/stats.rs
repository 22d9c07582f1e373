//! Round-trip statistics: counters, packet loss as an exact fraction, and
//! the minimum, maximum, mean and population variance of the recorded
//! round-trip samples, all held exactly in integers. The mean is
//! `sum / count` and the population variance is `variance_num /
//! variance_den`; a caller that wants the standard deviation takes the
//! square root of that ratio.

use vstd::prelude::*;

verus! {

/// Every round-trip sample must stay below this bound (about 49 days in
/// milliseconds), and so must the number of samples, so that the exact
/// sums of squares below fit 128-bit arithmetic.
pub const SAMPLE_BOUND: u64 = 0xffff_ffff;

/// Sum of the samples.
pub open spec fn seq_sum(s: Seq<u64>) -> int
    decreases s.len(),
{
    if s.len() == 0 {
        0
    } else {
        seq_sum(s.drop_last()) + s.last()
    }
}

/// Sum of the squares of the samples.
pub open spec fn seq_sum_sq(s: Seq<u64>) -> int
    decreases s.len(),
{
    if s.len() == 0 {
        0
    } else {
        seq_sum_sq(s.drop_last()) + (s.last() as int) * (s.last() as int)
    }
}

/// The exact aggregates over the recorded round-trip samples.
pub struct RttSummary {
    pub count: u64,
    pub min: u64,
    pub max: u64,
    pub sum: u128,
    pub variance_num: u128,
    pub variance_den: u128,
}

/// The statistics of one run: how many requests went out, how many replies
/// came back, how many Time Exceeded events were seen, the number of lost
/// requests (so the loss fraction is `lost / transmitted`), and the
/// round-trip aggregates when at least one reply was received.
pub struct Summary {
    pub transmitted: u64,
    pub received: u64,
    pub errors: u64,
    pub lost: u64,
    pub rtt: Option<RttSummary>,
}

pub proof fn lemma_seq_sum_nonneg(s: Seq<u64>)
    ensures
        seq_sum(s) >= 0,
        seq_sum_sq(s) >= 0,
    decreases s.len(),
{
    if s.len() > 0 {
        lemma_seq_sum_nonneg(s.drop_last());
        assert((s.last() as int) * (s.last() as int) >= 0) by (nonlinear_arith);
    }
}

/// The summed squared deviation of the samples from any value y is never
/// negative: sum of squares + len * y^2 is at least 2 * y * sum.
proof fn lemma_cross_term(s: Seq<u64>, y: int)
    ensures
        seq_sum_sq(s) + s.len() * (y * y) - 2 * y * seq_sum(s) >= 0,
    decreases s.len(),
{
    if s.len() > 0 {
        let prev = s.drop_last();
        let n = prev.len() as int;
        let x = s.last() as int;
        lemma_cross_term(prev, y);
        assert(x * x + y * y - 2 * y * x >= 0) by (nonlinear_arith);
        assert(seq_sum_sq(prev) + x * x + (n + 1) * (y * y) - 2 * y * (seq_sum(prev) + x) >= 0)
            by (nonlinear_arith)
            requires
                seq_sum_sq(prev) + n * (y * y) - 2 * y * seq_sum(prev) >= 0,
                x * x + y * y - 2 * y * x >= 0,
        ;
        assert(s.len() * (y * y) == (n + 1) * (y * y)) by (nonlinear_arith)
            requires s.len() == n + 1,
        ;
    }
}

/// The numerator of the population variance is never negative:
/// len * (sum of squares) is at least (sum) squared.
pub proof fn lemma_variance_nonneg(s: Seq<u64>)
    ensures
        s.len() * seq_sum_sq(s) >= seq_sum(s) * seq_sum(s),
    decreases s.len(),
{
    if s.len() > 0 {
        let prev = s.drop_last();
        let n = prev.len() as int;
        let sum = seq_sum(prev);
        let sumsq = seq_sum_sq(prev);
        let y = s.last() as int;
        lemma_variance_nonneg(prev);
        lemma_cross_term(prev, y);
        assert((n + 1) * (sumsq + y * y) >= (sum + y) * (sum + y))
            by (nonlinear_arith)
            requires
                n * sumsq >= sum * sum,
                sumsq + n * (y * y) - 2 * y * sum >= 0,
        ;
    }
}

/// Aggregate one run's numbers: `transmitted` requests went out, `errors`
/// Time Exceeded events were seen, and `rtts` holds one round-trip sample
/// per matched reply, in milliseconds. The sample count and each sample
/// must stay below `SAMPLE_BOUND` so that the exact sums fit 128-bit
/// arithmetic.
pub fn summarize(transmitted: u64, errors: u64, rtts: &Vec<u64>) -> (s: Summary)
    requires
        rtts@.len() <= transmitted,
        rtts@.len() <= SAMPLE_BOUND,
        forall|i: int| 0 <= i < rtts@.len() ==> rtts@[i] <= SAMPLE_BOUND,
    ensures
        s.transmitted == transmitted,
        s.received == rtts@.len(),
        s.errors == errors,
        s.lost == transmitted - rtts@.len(),
        rtts@.len() == 0 ==> s.rtt is None,
        rtts@.len() > 0 ==> (s.rtt matches Some(r) && {
            &&& r.count == rtts@.len()
            &&& rtts@.contains(r.min)
            &&& forall|i: int| 0 <= i < rtts@.len() ==> r.min <= rtts@[i]
            &&& rtts@.contains(r.max)
            &&& forall|i: int| 0 <= i < rtts@.len() ==> rtts@[i] <= r.max
            &&& r.sum == seq_sum(rtts@)
            &&& r.variance_num == rtts@.len() * seq_sum_sq(rtts@) - seq_sum(rtts@) * seq_sum(
                rtts@,
            )
            &&& r.variance_den == rtts@.len() * rtts@.len()
        }),
{
    let n: usize = rtts.len();
    let received: u64 = n as u64;
    let lost: u64 = transmitted - received;
    if n == 0 {
        return Summary { transmitted, received, errors, lost, rtt: None };
    }
    let mut mn: u64 = rtts[0];
    let mut mx: u64 = rtts[0];
    let mut sum: u128 = 0;
    let mut sumsq: u128 = 0;
    let mut i: usize = 0;
    while i < n
        invariant
            0 < n == rtts@.len() <= SAMPLE_BOUND,
            forall|j: int| 0 <= j < rtts@.len() ==> rtts@[j] <= SAMPLE_BOUND,
            i <= n,
            rtts@.contains(mn),
            forall|j: int| 0 <= j < i ==> mn <= rtts@[j],
            mn <= rtts@[0],
            rtts@.contains(mx),
            forall|j: int| 0 <= j < i ==> rtts@[j] <= mx,
            rtts@[0] <= mx,
            sum == seq_sum(rtts@.take(i as int)),
            sum as int <= (i as int) * 0xffff_ffff,
            sumsq == seq_sum_sq(rtts@.take(i as int)),
            sumsq as int <= (i as int) * 0xffff_fffe_0000_0001,
        decreases n - i,
    {
        let x: u64 = rtts[i];
        if x < mn {
            mn = x;
        }
        if x > mx {
            mx = x;
        }
        assert((x as u128) * (x as u128) <= 0xffff_fffe_0000_0001) by (nonlinear_arith)
            requires x <= 0xffff_ffff,
        ;
        assert(rtts@.take(i as int + 1).drop_last() =~= rtts@.take(i as int));
        assert(rtts@.take(i as int + 1).last() == rtts@[i as int]);
        sum = sum + (x as u128);
        sumsq = sumsq + (x as u128) * (x as u128);
        i = i + 1;
    }
    assert(rtts@.take(n as int) =~= rtts@);
    proof {
        lemma_seq_sum_nonneg(rtts@);
        lemma_variance_nonneg(rtts@);
        assert(sum as int <= 0xffff_ffff * 0xffff_ffff) by (nonlinear_arith)
            requires
                0 <= sum as int <= (n as int) * 0xffff_ffff,
                0 <= n as int <= 0xffff_ffff,
        ;
        assert(sumsq as int <= 0xffff_ffff * 0xffff_fffe_0000_0001) by (nonlinear_arith)
            requires
                0 <= sumsq as int <= (n as int) * 0xffff_fffe_0000_0001,
                0 <= n as int <= 0xffff_ffff,
        ;
        assert((n as int) * (sumsq as int)
            <= 0xffff_fffe_0000_0001 * 0xffff_fffe_0000_0001) by (nonlinear_arith)
            requires
                0 <= n as int <= 0xffff_ffff,
                0 <= sumsq as int <= 0xffff_ffff * 0xffff_fffe_0000_0001,
        ;
        assert((sum as int) * (sum as int)
            <= 0xffff_fffe_0000_0001 * 0xffff_fffe_0000_0001) by (nonlinear_arith)
            requires 0 <= sum as int <= 0xffff_ffff * 0xffff_ffff,
        ;
        assert((n as int) * (n as int) <= 0xffff_fffe_0000_0001) by (nonlinear_arith)
            requires 0 <= n as int <= 0xffff_ffff,
        ;
    }
    let count: u128 = received as u128;
    let variance_num: u128 = count * sumsq - sum * sum;
    let variance_den: u128 = count * count;
    Summary {
        transmitted,
        received,
        errors,
        lost,
        rtt: Some(
            RttSummary {
                count: received,
                min: mn,
                max: mx,
                sum,
                variance_num,
                variance_den,
            },
        ),
    }
}

} // verus!
