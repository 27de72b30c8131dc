//! Reducing a run of duration samples to descriptive statistics.
//!
//! Samples are whole microseconds. The average is their exact mean, kept as
//! a fraction; the 95th percentile is the nearest-rank percentile, which
//! leans high on short runs; the throughput is the number of operations per
//! second at the average latency.

use vstd::prelude::*;
use vstd::relations::{sorted_by, total_ordering};
use vstd::seq_lib::lemma_sorted_unique;
use crate::ratio::Ratio;
use crate::series::{
    greatest, is_greatest, is_least, least, lemma_greatest, lemma_least, lemma_total_fits,
    lemma_total_within_extremes, max, min, sum, total,
};

verus! {

/// Microseconds per second.
pub const MICROS_PER_SECOND: u64 = 1_000_000;

/// Microseconds per millisecond.
pub const MICROS_PER_MILLI: u64 = 1000;

/// The percentile the statistics report.
pub const REPORTED_PERCENTILE: u32 = 95;

/// The statistics of one run of samples, in microseconds.
#[derive(Clone, Copy, Debug, PartialEq, Eq, Structural)]
pub struct Stats {
    pub avg: Ratio,
    pub min: u64,
    pub max: u64,
    pub p95: u64,
    /// Operations per second.
    pub throughput: Ratio,
}

impl Stats {
    /// Both fractions denote numbers.
    pub open spec fn wf(self) -> bool {
        self.avg.wf() && self.throughput.wf()
    }

    /// The statistics of the empty run: all zero.
    pub open spec fn all_zero() -> Stats {
        Stats { avg: Ratio::of(0, 1), min: 0, max: 0, p95: 0, throughput: Ratio::of(0, 1) }
    }
}

/// The order of samples: by size.
pub open spec fn by_size() -> spec_fn(u64, u64) -> bool {
    |a: u64, b: u64| a <= b
}

/// The samples in ascending order.
pub open spec fn ascending(s: Seq<u64>) -> Seq<u64> {
    s.sort_by(by_size())
}

/// The nearest-rank index of a percentile in an ascending run of `len`
/// samples: `floor(len * percent / 100)`, capped at the last index.
pub open spec fn percentile_index(len: nat, percent: nat) -> int {
    if len * percent / 100 < len - 1 {
        (len * percent / 100) as int
    } else {
        len - 1
    }
}

/// The nearest-rank percentile of a non-empty run.
pub open spec fn percentile_of(s: Seq<u64>, percent: nat) -> u64 {
    ascending(s)[percentile_index(s.len(), percent)]
}

/// Operations per second at an average of `total / count` microseconds per
/// operation: `1_000_000 * count / total`, and zero when the average is
/// zero.
pub open spec fn throughput_of(total: nat, count: nat) -> Ratio {
    if total > 0 {
        Ratio::of(MICROS_PER_SECOND * count, total as int)
    } else {
        Ratio::of(0, 1)
    }
}

/// The statistics of a run of samples.
pub open spec fn stats_of(s: Seq<u64>) -> Stats {
    if s.len() == 0 {
        Stats::all_zero()
    } else {
        Stats {
            avg: Ratio::of(total(s) as int, s.len() as int),
            min: least(s),
            max: greatest(s),
            p95: percentile_of(s, REPORTED_PERCENTILE as nat),
            throughput: throughput_of(total(s), s.len()),
        }
    }
}

/// Ordering samples by size is a total order.
pub proof fn lemma_by_size_total()
    ensures
        total_ordering(by_size()),
{
}

/// The ascending run holds the same samples as the run it orders, each as
/// often, and no sample in it is followed by a smaller one.
pub proof fn lemma_ascending(s: Seq<u64>)
    ensures
        ascending(s).len() == s.len(),
        ascending(s).to_multiset() == s.to_multiset(),
        sorted_by(ascending(s), by_size()),
        forall|i: int, j: int|
            0 <= i <= j < s.len() ==> #[trigger] ascending(s)[i] <= #[trigger] ascending(s)[j],
        forall|i: int| 0 <= i < s.len() ==> s.contains(#[trigger] ascending(s)[i]),
        forall|i: int| 0 <= i < s.len() ==> ascending(s).contains(#[trigger] s[i]),
{
    broadcast use vstd::seq_lib::group_to_multiset_ensures;

    lemma_by_size_total();
    s.lemma_sort_by_ensures(by_size());
    let a = ascending(s);
    assert(a.len() == s.len()) by {
        assert(a.to_multiset().len() == s.to_multiset().len());
    }
    assert forall|i: int, j: int| 0 <= i <= j < s.len() implies #[trigger] a[i]
        <= #[trigger] a[j] by {
        if i < j {
            assert(by_size()(a[i], a[j]));
        }
    }
    assert forall|i: int| 0 <= i < s.len() implies s.contains(#[trigger] a[i]) by {
        assert(a.contains(a[i]));
    }
    assert forall|i: int| 0 <= i < s.len() implies a.contains(#[trigger] s[i]) by {
        assert(s.contains(s[i]));
        assert(a.to_multiset().count(s[i]) > 0);
    }
}

/// The nearest-rank index is an index of the run, and is the floor of
/// `len * percent / 100` whenever that is one.
pub proof fn lemma_percentile_index(len: nat, percent: nat)
    requires
        len > 0,
    ensures
        0 <= percentile_index(len, percent) < len,
        percentile_index(len, percent) <= len * percent / 100,
        percent < 100 ==> percentile_index(len, percent) == len * percent / 100,
        percent >= 100 ==> percentile_index(len, percent) == len - 1,
{
    assert(0 <= len * percent / 100) by (nonlinear_arith)
        requires
            len >= 0,
            percent >= 0,
    ;
    if percent < 100 {
        assert(len * percent / 100 <= len - 1) by (nonlinear_arith)
            requires
                len > 0,
                0 <= percent < 100,
        ;
    } else {
        assert(len * percent / 100 >= len) by (nonlinear_arith)
            requires
                len > 0,
                percent >= 100,
        ;
    }
}

/// A percentile of a non-empty run is one of its samples and lies between
/// its least and its greatest.
pub proof fn lemma_percentile_within_extremes(s: Seq<u64>, percent: nat)
    requires
        s.len() > 0,
    ensures
        s.contains(percentile_of(s, percent)),
        least(s) <= percentile_of(s, percent) <= greatest(s),
{
    lemma_percentile_index(s.len(), percent);
    lemma_ascending(s);
    lemma_least(s);
    lemma_greatest(s);
    let p = percentile_of(s, percent);
    assert(s.contains(p));
    let k = choose|k: int| 0 <= k < s.len() && s[k] == p;
    assert(least(s) <= s[k] <= greatest(s));
}

/// In a run of at most twenty samples the 95th percentile is the greatest
/// sample: the nearest rank is the last.
pub proof fn lemma_p95_of_short_run(s: Seq<u64>)
    requires
        0 < s.len() <= 20,
    ensures
        percentile_index(s.len(), 95) == s.len() - 1,
        percentile_of(s, 95) == greatest(s),
{
    lemma_ascending(s);
    lemma_greatest(s);
    lemma_percentile_within_extremes(s, 95);
    let a = ascending(s);
    let last = s.len() - 1;
    let k = choose|k: int| 0 <= k < s.len() && s[k] == greatest(s);
    assert(a.contains(s[k]));
    let m = choose|m: int| 0 <= m < a.len() && a[m] == s[k];
    assert(a[m] <= a[last]);
}

/// Past twenty samples the 95th percentile's rank is the floor of
/// `len * 0.95`, which lies before the last.
pub proof fn lemma_p95_of_long_run(len: nat)
    requires
        len > 20,
    ensures
        percentile_index(len, 95) == len * 95 / 100,
        percentile_index(len, 95) < len - 1,
{
}

/// For a non-empty run, the minimum is at most the average and the average
/// at most the maximum; the same holds of the 95th percentile.
pub proof fn lemma_stats_ordered(s: Seq<u64>)
    requires
        0 < s.len() <= usize::MAX,
    ensures
        stats_of(s).wf(),
        Ratio::of(stats_of(s).min as int, 1).le(stats_of(s).avg),
        stats_of(s).avg.le(Ratio::of(stats_of(s).max as int, 1)),
        stats_of(s).min <= stats_of(s).p95 <= stats_of(s).max,
        is_least(s, stats_of(s).min),
        is_greatest(s, stats_of(s).max),
{
    lemma_stats_exact(s);
    lemma_total_within_extremes(s);
    lemma_percentile_within_extremes(s, REPORTED_PERCENTILE as nat);
    lemma_least(s);
    lemma_greatest(s);
    let st = stats_of(s);
    let lo = Ratio::of(st.min as int, 1);
    let hi = Ratio::of(st.max as int, 1);
    assert(lo.num * st.avg.den == least(s) * s.len()) by (nonlinear_arith)
        requires
            lo.num == least(s),
            st.avg.den == s.len(),
    ;
    assert(hi.num * st.avg.den == greatest(s) * s.len()) by (nonlinear_arith)
        requires
            hi.num == greatest(s),
            st.avg.den == s.len(),
    ;
    assert(st.avg.num * lo.den == total(s)) by (nonlinear_arith)
        requires
            st.avg.num == total(s),
            lo.den == 1,
    ;
    assert(st.avg.num * hi.den == total(s)) by (nonlinear_arith)
        requires
            st.avg.num == total(s),
            hi.den == 1,
    ;
}

/// The fractions of `stats_of` are the integers they are written as: the
/// average is `total / len`, the throughput `1_000_000 * len / total`.
pub proof fn lemma_stats_exact(s: Seq<u64>)
    requires
        0 < s.len() <= usize::MAX,
    ensures
        stats_of(s).wf(),
        stats_of(s).avg.num == total(s),
        stats_of(s).avg.den == s.len(),
        total(s) > 0 ==> stats_of(s).throughput.num == MICROS_PER_SECOND * s.len(),
        total(s) > 0 ==> stats_of(s).throughput.den == total(s),
        total(s) == 0 ==> stats_of(s).throughput == Ratio::of(0, 1),
{
    lemma_total_fits(s);
    assert(0 < MICROS_PER_SECOND * s.len() <= u128::MAX) by (nonlinear_arith)
        requires
            0 < s.len() <= 0xffff_ffff_ffff_ffff,
            MICROS_PER_SECOND == 1_000_000,
            u128::MAX == 0xffff_ffff_ffff_ffff_ffff_ffff_ffff_ffff,
    ;
}

/// The statistics of the empty run are all zero.
pub proof fn lemma_stats_of_empty_run(s: Seq<u64>)
    requires
        s.len() == 0,
    ensures
        stats_of(s) == Stats::all_zero(),
        stats_of(s).avg.is_zero(),
        stats_of(s).min == 0,
        stats_of(s).max == 0,
        stats_of(s).p95 == 0,
        stats_of(s).throughput.is_zero(),
        stats_of(s).wf(),
{
}

/// Throughput times average is exactly one million whenever the average is
/// positive, and the throughput is zero exactly when the average is.
pub proof fn lemma_throughput_inverts_average(s: Seq<u64>)
    requires
        s.len() <= usize::MAX,
    ensures
        !stats_of(s).avg.is_zero() ==> stats_of(s).throughput.product_is(
            stats_of(s).avg,
            MICROS_PER_SECOND as int,
        ),
        stats_of(s).throughput.is_zero() <==> stats_of(s).avg.is_zero(),
{
    if s.len() > 0 {
        lemma_stats_exact(s);
        let st = stats_of(s);
        let t = total(s) as int;
        let n = s.len() as int;
        if t > 0 {
            assert((MICROS_PER_SECOND * n) * t == MICROS_PER_SECOND * (t * n))
                by (nonlinear_arith);
            assert(MICROS_PER_SECOND * n > 0) by (nonlinear_arith)
                requires
                    n > 0,
                    MICROS_PER_SECOND == 1_000_000,
            ;
        }
    }
}

/// `sort_unstable` on a slice of integers: afterwards the vector holds the
/// same samples, each as often as before, in ascending order.
#[verifier::external_body]
fn sort_samples(samples: &mut Vec<u64>)
    ensures
        final(samples)@.to_multiset() == old(samples)@.to_multiset(),
        sorted_by(final(samples)@, by_size()),
{
    samples.sort_unstable();
}

/// A copy of the samples.
fn copy_samples(timings: &Vec<u64>) -> (copy: Vec<u64>)
    ensures
        copy@ == timings@,
{
    let mut copy: Vec<u64> = Vec::new();
    let mut i: usize = 0;
    while i < timings.len()
        invariant
            i <= timings.len(),
            copy@ == timings@.take(i as int),
        decreases timings.len() - i,
    {
        copy.push(timings[i]);
        i = i + 1;
    }
    copy
}

/// The nearest-rank percentile of a non-empty run: the sample at index
/// `floor(len * percent / 100)` of the ascending run, or the last sample if
/// that index lies past it.
pub fn compute_percentile(timings: &Vec<u64>, percent: u32) -> (value: u64)
    requires
        timings.len() > 0,
    ensures
        value == percentile_of(timings@, percent as nat),
{
    let mut sorted = copy_samples(timings);
    sort_samples(&mut sorted);
    proof {
        lemma_by_size_total();
        lemma_ascending(timings@);
        lemma_sorted_unique(sorted@, ascending(timings@), by_size());
        lemma_percentile_index(timings@.len(), percent as nat);
    }
    let len = sorted.len();
    assert((len as u128) * (percent as u128) <= u128::MAX) by (nonlinear_arith)
        requires
            len <= 0xffff_ffff_ffff_ffff,
            percent <= 0xffff_ffff,
            u128::MAX == 0xffff_ffff_ffff_ffff_ffff_ffff_ffff_ffff,
    ;
    let rank: u128 = (len as u128) * (percent as u128) / 100;
    let idx: usize = if rank < (len - 1) as u128 {
        rank as usize
    } else {
        len - 1
    };
    sorted[idx]
}

/// Reduces a run of samples to its statistics. The empty run gives all
/// zeros.
pub fn compute_stats(timings: &Vec<u64>) -> (stats: Stats)
    ensures
        stats == stats_of(timings@),
        stats.wf(),
{
    let count = timings.len();
    if count == 0 {
        return Stats {
            avg: Ratio::zero(),
            min: 0,
            max: 0,
            p95: 0,
            throughput: Ratio::zero(),
        };
    }
    proof {
        lemma_stats_exact(timings@);
    }
    let total_micros = sum(timings);
    let throughput = if total_micros > 0 {
        Ratio::new((MICROS_PER_SECOND as u128) * (count as u128), total_micros)
    } else {
        Ratio::zero()
    };
    Stats {
        avg: Ratio::new(total_micros, count as u128),
        min: min(timings),
        max: max(timings),
        p95: compute_percentile(timings, REPORTED_PERCENTILE),
        throughput,
    }
}

} // verus!
