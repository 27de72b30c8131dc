//! Merging the responses of one batch into a single summary.
//!
//! Latencies are averaged as a mean of the per-response means; the raw
//! samples never leave the service. Minimum and maximum are the extremes of
//! the per-response extremes. All results are exact fractions.

use vstd::prelude::*;
use vstd::string::StringExecFns;
use crate::clock::timestamp_rfc3339;
use crate::identity::Service;
use crate::orchestrator::{Batch, BatchView};
use crate::ratio::Ratio;
use crate::response::{column, column_of, Field, ResponseStats, FIXED_SCALE};
use crate::stats::MICROS_PER_MILLI;
use crate::series::{
    greatest, is_greatest, is_least, least, lemma_extremes_unique, lemma_greatest, lemma_least,
    lemma_total_fits, lemma_total_monotone, lemma_total_remove, lemma_total_within_extremes, max,
    min, sum, total,
};

verus! {

/// The merged statistics of the successful responses of a batch, in the unit
/// the service reports.
#[derive(Clone, Copy, Debug, PartialEq, Eq, Structural)]
pub struct AggregatedStats {
    pub avg_latency: Ratio,
    pub min_latency: Ratio,
    pub max_latency: Ratio,
    pub p95_latency: Ratio,
    pub throughput: Ratio,
}

impl AggregatedStats {
    /// Every field denotes a number.
    pub open spec fn wf(self) -> bool {
        &&& self.avg_latency.wf()
        &&& self.min_latency.wf()
        &&& self.max_latency.wf()
        &&& self.p95_latency.wf()
        &&& self.throughput.wf()
    }

    /// The statistics of a batch without a successful response: all zero.
    pub open spec fn all_zero() -> AggregatedStats {
        AggregatedStats {
            avg_latency: Ratio::of(0, 1),
            min_latency: Ratio::of(0, 1),
            max_latency: Ratio::of(0, 1),
            p95_latency: Ratio::of(0, 1),
            throughput: Ratio::of(0, 1),
        }
    }

    /// The latency denominators can take the factor from microseconds to
    /// milliseconds without leaving their range.
    pub open spec fn scalable(self) -> bool {
        &&& self.avg_latency.den * MICROS_PER_MILLI <= u128::MAX
        &&& self.min_latency.den * MICROS_PER_MILLI <= u128::MAX
        &&& self.max_latency.den * MICROS_PER_MILLI <= u128::MAX
        &&& self.p95_latency.den * MICROS_PER_MILLI <= u128::MAX
    }

    /// The same statistics with latencies in milliseconds, given them in
    /// microseconds. The throughput has no time unit to change.
    pub open spec fn micros_to_millis(self) -> AggregatedStats {
        AggregatedStats {
            avg_latency: Ratio::of(
                self.avg_latency.num as int,
                self.avg_latency.den * MICROS_PER_MILLI,
            ),
            min_latency: Ratio::of(
                self.min_latency.num as int,
                self.min_latency.den * MICROS_PER_MILLI,
            ),
            max_latency: Ratio::of(
                self.max_latency.num as int,
                self.max_latency.den * MICROS_PER_MILLI,
            ),
            p95_latency: Ratio::of(
                self.p95_latency.num as int,
                self.p95_latency.den * MICROS_PER_MILLI,
            ),
            throughput: self.throughput,
        }
    }

    /// Converts latencies from microseconds to milliseconds.
    pub fn to_millis(self) -> (r: AggregatedStats)
        requires
            self.wf(),
            self.scalable(),
        ensures
            r == self.micros_to_millis(),
            r.wf(),
    {
        AggregatedStats {
            avg_latency: self.avg_latency.scaled_down(MICROS_PER_MILLI),
            min_latency: self.min_latency.scaled_down(MICROS_PER_MILLI),
            max_latency: self.max_latency.scaled_down(MICROS_PER_MILLI),
            p95_latency: self.p95_latency.scaled_down(MICROS_PER_MILLI),
            throughput: self.throughput,
        }
    }
}

/// The merged statistics of `results`: mean of the averages, least of the
/// minimums, greatest of the maximums, mean of the 95th percentiles and mean
/// of the throughputs; all zero when there is no result.
pub open spec fn aggregate_of(results: Seq<ResponseStats>) -> AggregatedStats {
    if results.len() == 0 {
        AggregatedStats::all_zero()
    } else {
        AggregatedStats {
            avg_latency: Ratio::of(
                total(column(results, Field::Avg)) as int,
                results.len() * FIXED_SCALE,
            ),
            min_latency: Ratio::of(least(column(results, Field::Min)) as int, FIXED_SCALE as int),
            max_latency: Ratio::of(
                greatest(column(results, Field::Max)) as int,
                FIXED_SCALE as int,
            ),
            p95_latency: Ratio::of(
                total(column(results, Field::P95)) as int,
                results.len() * FIXED_SCALE,
            ),
            throughput: Ratio::of(
                total(column(results, Field::Throughput)) as int,
                results.len() * FIXED_SCALE,
            ),
        }
    }
}

/// The numerators and denominators of `aggregate_of` are the integers they
/// are written as: none of them leaves the range of its field.
pub proof fn lemma_aggregate_exact(results: Seq<ResponseStats>)
    requires
        0 < results.len() <= usize::MAX,
    ensures
        aggregate_of(results).wf(),
        aggregate_of(results).scalable(),
        aggregate_of(results).avg_latency.num == total(column(results, Field::Avg)),
        aggregate_of(results).p95_latency.num == total(column(results, Field::P95)),
        aggregate_of(results).throughput.num == total(column(results, Field::Throughput)),
        aggregate_of(results).avg_latency.den == results.len() * FIXED_SCALE,
        aggregate_of(results).p95_latency.den == results.len() * FIXED_SCALE,
        aggregate_of(results).throughput.den == results.len() * FIXED_SCALE,
        aggregate_of(results).min_latency.num == least(column(results, Field::Min)),
        aggregate_of(results).max_latency.num == greatest(column(results, Field::Max)),
        aggregate_of(results).min_latency.den == FIXED_SCALE,
        aggregate_of(results).max_latency.den == FIXED_SCALE,
{
    lemma_total_fits(column(results, Field::Avg));
    lemma_total_fits(column(results, Field::P95));
    lemma_total_fits(column(results, Field::Throughput));
    let n = results.len();
    assert(0 < n * FIXED_SCALE && (n * FIXED_SCALE) * MICROS_PER_MILLI <= u128::MAX)
        by (nonlinear_arith)
        requires
            0 < n <= 0xffff_ffff_ffff_ffff,
            FIXED_SCALE == 1_000_000,
            MICROS_PER_MILLI == 1000,
            u128::MAX == 0xffff_ffff_ffff_ffff_ffff_ffff_ffff_ffff,
    ;
}

/// Merges the statistics of the successful responses of a batch.
pub fn aggregate(results: &Vec<ResponseStats>) -> (r: AggregatedStats)
    ensures
        r == aggregate_of(results@),
        r.wf(),
        r.scalable(),
{
    let n = results.len();
    if n == 0 {
        return AggregatedStats {
            avg_latency: Ratio::zero(),
            min_latency: Ratio::zero(),
            max_latency: Ratio::zero(),
            p95_latency: Ratio::zero(),
            throughput: Ratio::zero(),
        };
    }
    proof {
        lemma_aggregate_exact(results@);
    }
    let mean_den: u128 = (n as u128) * (FIXED_SCALE as u128);
    let avg = sum(&column_of(results, Field::Avg));
    let least_min = min(&column_of(results, Field::Min));
    let greatest_max = max(&column_of(results, Field::Max));
    let p95 = sum(&column_of(results, Field::P95));
    let throughput = sum(&column_of(results, Field::Throughput));
    AggregatedStats {
        avg_latency: Ratio::new(avg, mean_den),
        min_latency: Ratio::new(least_min as u128, FIXED_SCALE as u128),
        max_latency: Ratio::new(greatest_max as u128, FIXED_SCALE as u128),
        p95_latency: Ratio::new(p95, mean_den),
        throughput: Ratio::new(throughput, mean_den),
    }
}

/// Bounds on a sum carry over to both sides multiplied by a positive scale.
proof fn lemma_scaled_between(lo: int, hi: int, n: int, t: int, scale: int)
    by (nonlinear_arith)
    requires
        lo * n <= t <= hi * n,
        scale > 0,
    ensures
        lo * (n * scale) <= t * scale,
        t * scale <= hi * (n * scale),
{
}

/// When every response is consistent and at least one call succeeded, the
/// merged average and the merged 95th percentile lie between the merged
/// minimum and the merged maximum.
pub proof fn lemma_aggregate_within_extremes(results: Seq<ResponseStats>)
    requires
        0 < results.len() <= usize::MAX,
        forall|i: int| 0 <= i < results.len() ==> (#[trigger] results[i]).consistent(),
    ensures
        aggregate_of(results).min_latency.le(aggregate_of(results).avg_latency),
        aggregate_of(results).avg_latency.le(aggregate_of(results).max_latency),
        aggregate_of(results).min_latency.le(aggregate_of(results).p95_latency),
        aggregate_of(results).p95_latency.le(aggregate_of(results).max_latency),
{
    lemma_aggregate_exact(results);
    let n = results.len() as int;
    let mins = column(results, Field::Min);
    let maxs = column(results, Field::Max);
    let avgs = column(results, Field::Avg);
    let p95s = column(results, Field::P95);
    lemma_total_within_extremes(mins);
    lemma_total_within_extremes(maxs);
    assert forall|i: int| 0 <= i < n implies mins[i] <= avgs[i] && avgs[i] <= maxs[i] && mins[i]
        <= p95s[i] && p95s[i] <= maxs[i] by {
        assert(results[i].consistent());
    }
    lemma_total_monotone(mins, avgs);
    lemma_total_monotone(avgs, maxs);
    lemma_total_monotone(mins, p95s);
    lemma_total_monotone(p95s, maxs);
    let lo = least(mins) as int;
    let hi = greatest(maxs) as int;
    let scale = FIXED_SCALE as int;
    lemma_scaled_between(lo, hi, n, total(avgs) as int, scale);
    lemma_scaled_between(lo, hi, n, total(p95s) as int, scale);
}

/// Responses that are the same up to their order have the same sum in every
/// column.
pub proof fn lemma_column_total_unordered(
    a: Seq<ResponseStats>,
    b: Seq<ResponseStats>,
    field: Field,
)
    requires
        a.to_multiset() == b.to_multiset(),
    ensures
        total(column(a, field)) == total(column(b, field)),
    decreases a.len(),
{
    broadcast use vstd::seq_lib::group_to_multiset_ensures;

    a.to_multiset_ensures();
    b.to_multiset_ensures();
    if a.len() == 0 {
        assert(column(a, field) =~= column(b, field));
    } else {
        let x = a.last();
        assert(a.contains(x)) by {
            assert(a[a.len() - 1] == x);
        }
        assert(b.to_multiset().count(x) > 0);
        assert(b.contains(x));
        let j = choose|j: int| 0 <= j < b.len() && b[j] == x;
        assert(a.drop_last() =~= a.remove(a.len() - 1));
        assert(a.drop_last().to_multiset() == b.remove(j).to_multiset());
        lemma_column_total_unordered(a.drop_last(), b.remove(j), field);
        assert(column(a.drop_last(), field) =~= column(a, field).drop_last());
        assert(column(b.remove(j), field) =~= column(b, field).remove(j));
        lemma_total_remove(column(b, field), j);
    }
}

/// Every value in a column of `b` occurs in the same column of `a` when
/// every response of `b` occurs in `a`.
proof fn lemma_column_values_carry_over(
    a: Seq<ResponseStats>,
    b: Seq<ResponseStats>,
    field: Field,
    j: int,
) -> (i: int)
    requires
        a.to_multiset() == b.to_multiset(),
        0 <= j < b.len(),
    ensures
        0 <= i < a.len(),
        column(a, field)[i] == column(b, field)[j],
{
    broadcast use vstd::seq_lib::group_to_multiset_ensures;

    assert(b.contains(b[j]));
    assert(a.to_multiset().count(b[j]) > 0);
    assert(a.contains(b[j]));
    choose|i: int| 0 <= i < a.len() && a[i] == b[j]
}

/// Responses that are the same up to their order have the same least and
/// the same greatest value in every column.
pub proof fn lemma_column_extremes_unordered(
    a: Seq<ResponseStats>,
    b: Seq<ResponseStats>,
    field: Field,
)
    requires
        a.to_multiset() == b.to_multiset(),
    ensures
        least(column(a, field)) == least(column(b, field)),
        greatest(column(a, field)) == greatest(column(b, field)),
{
    a.to_multiset_ensures();
    b.to_multiset_ensures();
    let ca = column(a, field);
    let cb = column(b, field);
    if a.len() == 0 {
        assert(ca =~= cb);
    } else {
        lemma_least(ca);
        lemma_greatest(ca);
        assert forall|j: int| 0 <= j < cb.len() implies least(ca) <= #[trigger] cb[j] && cb[j]
            <= greatest(ca) by {
            let i = lemma_column_values_carry_over(a, b, field, j);
        }
        let lo = choose|i: int| 0 <= i < ca.len() && ca[i] == least(ca);
        let lo_b = lemma_column_values_carry_over(b, a, field, lo);
        let hi = choose|i: int| 0 <= i < ca.len() && ca[i] == greatest(ca);
        let hi_b = lemma_column_values_carry_over(b, a, field, hi);
        assert(is_least(cb, least(ca)));
        assert(is_greatest(cb, greatest(ca)));
        lemma_extremes_unique(cb, least(ca));
        lemma_extremes_unique(cb, greatest(ca));
    }
}

/// Merging does not depend on the order in which the responses came in.
pub proof fn lemma_aggregate_unordered(a: Seq<ResponseStats>, b: Seq<ResponseStats>)
    requires
        a.to_multiset() == b.to_multiset(),
    ensures
        aggregate_of(a) == aggregate_of(b),
{
    a.to_multiset_ensures();
    b.to_multiset_ensures();
    lemma_column_total_unordered(a, b, Field::Avg);
    lemma_column_total_unordered(a, b, Field::P95);
    lemma_column_total_unordered(a, b, Field::Throughput);
    lemma_column_extremes_unordered(a, b, Field::Min);
    lemma_column_extremes_unordered(a, b, Field::Max);
}

/// What the client reports of one batch.
#[derive(Debug)]
pub struct BenchmarkResult {
    /// When the summary was made, as an RFC 3339 string.
    pub timestamp: String,
    pub label: String,
    pub service: String,
    pub operation: String,
    pub param_set: String,
    pub iterations: u32,
    pub requests: u32,
    pub concurrency: u32,
    pub avg_latency_ms: Ratio,
    pub min_latency_ms: Ratio,
    pub max_latency_ms: Ratio,
    pub p95_latency_ms: Ratio,
    pub throughput_ops_sec: Ratio,
    /// Wall-clock time of the whole batch.
    pub client_total_time_ms: u128,
    /// Wall-clock time of the batch per call asked for.
    pub client_avg_request_ms: Ratio,
    /// Calls that ended in a failure.
    pub error_count: u32,
}

impl BenchmarkResult {
    /// The result reports `stats` and the counters of `batch` under the given
    /// names. The timestamp is whatever the clock gave.
    pub open spec fn summarizes(
        self,
        service: Seq<char>,
        operation: Seq<char>,
        param_set: Seq<char>,
        label: Seq<char>,
        iterations: u32,
        batch: BatchView,
        stats: AggregatedStats,
        total_time_ms: u128,
    ) -> bool {
        &&& self.label@ == label
        &&& self.service@ == service
        &&& self.operation@ == operation
        &&& self.param_set@ == param_set
        &&& self.iterations == iterations
        &&& self.requests == batch.requests
        &&& self.concurrency == batch.concurrency
        &&& self.avg_latency_ms == stats.avg_latency
        &&& self.min_latency_ms == stats.min_latency
        &&& self.max_latency_ms == stats.max_latency
        &&& self.p95_latency_ms == stats.p95_latency
        &&& self.throughput_ops_sec == stats.throughput
        &&& self.client_total_time_ms == total_time_ms
        &&& self.client_avg_request_ms == Ratio::of(total_time_ms as int, batch.requests as int)
        &&& self.error_count == batch.errors
    }
}

/// Puts the summary of a batch together and stamps it with the current time.
fn summarize(
    service: &str,
    operation: &str,
    param_set: &str,
    label: &str,
    iterations: u32,
    batch: &Batch,
    stats: AggregatedStats,
    total_time_ms: u128,
) -> (r: BenchmarkResult)
    requires
        batch.wf(),
    ensures
        r.summarizes(
            service@,
            operation@,
            param_set@,
            label@,
            iterations,
            batch@,
            stats,
            total_time_ms,
        ),
        r.client_avg_request_ms.wf(),
{
    BenchmarkResult {
        timestamp: timestamp_rfc3339(),
        label: String::from_str(label),
        service: String::from_str(service),
        operation: String::from_str(operation),
        param_set: String::from_str(param_set),
        iterations,
        requests: batch.requests(),
        concurrency: batch.concurrency(),
        avg_latency_ms: stats.avg_latency,
        min_latency_ms: stats.min_latency,
        max_latency_ms: stats.max_latency,
        p95_latency_ms: stats.p95_latency,
        throughput_ops_sec: stats.throughput,
        client_total_time_ms: total_time_ms,
        client_avg_request_ms: Ratio::new(total_time_ms, batch.requests() as u128),
        error_count: batch.error_count(),
    }
}

/// The summary of a key-encapsulation batch. The service reports latencies
/// in microseconds; the summary gives them in milliseconds.
pub fn run_kem_benchmark(
    param_set: &str,
    operation: &str,
    iterations: u32,
    label: &str,
    batch: &Batch,
    total_time_ms: u128,
) -> (r: BenchmarkResult)
    requires
        batch.wf(),
    ensures
        r.summarizes(
            Service::Lattice.name_of(),
            operation@,
            param_set@,
            label@,
            iterations,
            batch@,
            aggregate_of(batch@.results).micros_to_millis(),
            total_time_ms,
        ),
{
    let stats = aggregate(batch.results()).to_millis();
    summarize(
        Service::Lattice.name(),
        operation,
        param_set,
        label,
        iterations,
        batch,
        stats,
        total_time_ms,
    )
}

/// The summary of a proof-generation batch. The service reports latencies in
/// milliseconds already.
pub fn run_zk_prove_benchmark(
    circuit_id: &str,
    iterations: u32,
    label: &str,
    batch: &Batch,
    total_time_ms: u128,
) -> (r: BenchmarkResult)
    requires
        batch.wf(),
    ensures
        r.summarizes(
            Service::Zk.name_of(),
            "prove"@,
            circuit_id@,
            label@,
            iterations,
            batch@,
            aggregate_of(batch@.results),
            total_time_ms,
        ),
{
    let stats = aggregate(batch.results());
    summarize(
        Service::Zk.name(),
        "prove",
        circuit_id,
        label,
        iterations,
        batch,
        stats,
        total_time_ms,
    )
}

/// The summary of a proof-verification batch. The service reports latencies
/// in milliseconds already.
pub fn run_zk_verify_benchmark(
    circuit_id: &str,
    iterations: u32,
    label: &str,
    batch: &Batch,
    total_time_ms: u128,
) -> (r: BenchmarkResult)
    requires
        batch.wf(),
    ensures
        r.summarizes(
            Service::Zk.name_of(),
            "verify"@,
            circuit_id@,
            label@,
            iterations,
            batch@,
            aggregate_of(batch@.results),
            total_time_ms,
        ),
{
    let stats = aggregate(batch.results());
    summarize(
        Service::Zk.name(),
        "verify",
        circuit_id,
        label,
        iterations,
        batch,
        stats,
        total_time_ms,
    )
}

/// A batch in which every call failed reports zero for every latency and for
/// the throughput, and counts every call as an error.
pub proof fn lemma_all_failed_is_zero(batch: Batch)
    requires
        batch.wf(),
        batch@.finished(),
        batch@.results.len() == 0,
    ensures
        aggregate_of(batch@.results) == AggregatedStats::all_zero(),
        aggregate_of(batch@.results).micros_to_millis().avg_latency.is_zero(),
        aggregate_of(batch@.results).micros_to_millis().min_latency.is_zero(),
        aggregate_of(batch@.results).micros_to_millis().max_latency.is_zero(),
        aggregate_of(batch@.results).micros_to_millis().p95_latency.is_zero(),
        aggregate_of(batch@.results).micros_to_millis().throughput.is_zero(),
        batch@.errors == batch@.requests,
{
}

} // verus!
