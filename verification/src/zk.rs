//! The proof-generation and proof-verification measurement endpoints.
//!
//! The proof system stays outside: the caller hands in the operation to
//! time. Samples are taken in microseconds; the responses of this family
//! report milliseconds.

use vstd::prelude::*;
use std::time::Instant;
use crate::clock::{current_timestamp, elapsed_micros};
use crate::identity::{AppError, Circuit, Family, clamped};
use crate::ratio::Ratio;
use crate::sampler::{sample, SampleRun};
use crate::series::{greatest, least};
use crate::stats::{
    lemma_stats_exact, lemma_stats_ordered, stats_of, Stats, MICROS_PER_MILLI,
};

verus! {

/// Milliseconds per second.
pub const MILLIS_PER_SECOND: u64 = 1000;

/// The statistics of one run of samples, in milliseconds.
#[derive(Clone, Copy, Debug, PartialEq, Eq, Structural)]
pub struct MillisStats {
    pub avg_ms: Ratio,
    pub min_ms: Ratio,
    pub max_ms: Ratio,
    pub p95_ms: Ratio,
    /// Operations per second.
    pub throughput: Ratio,
}

impl MillisStats {
    /// Every fraction denotes a number.
    pub open spec fn wf(self) -> bool {
        &&& self.avg_ms.wf()
        &&& self.min_ms.wf()
        &&& self.max_ms.wf()
        &&& self.p95_ms.wf()
        &&& self.throughput.wf()
    }
}

/// Statistics in microseconds expressed in milliseconds: every latency is
/// divided by a thousand. The throughput is per second either way.
pub open spec fn in_millis(stats: Stats) -> MillisStats {
    MillisStats {
        avg_ms: Ratio::of(stats.avg.num as int, stats.avg.den * MICROS_PER_MILLI),
        min_ms: Ratio::of(stats.min as int, MICROS_PER_MILLI as int),
        max_ms: Ratio::of(stats.max as int, MICROS_PER_MILLI as int),
        p95_ms: Ratio::of(stats.p95 as int, MICROS_PER_MILLI as int),
        throughput: stats.throughput,
    }
}

/// The statistics in milliseconds of a run of microsecond samples.
pub open spec fn millis_stats_of(samples: Seq<u64>) -> MillisStats {
    in_millis(stats_of(samples))
}

/// For a non-empty run, the minimum in milliseconds is at most the average
/// and the average at most the maximum; the same holds of the 95th
/// percentile.
pub proof fn lemma_millis_stats_ordered(samples: Seq<u64>)
    requires
        0 < samples.len() <= usize::MAX,
    ensures
        millis_stats_of(samples).wf(),
        millis_stats_of(samples).min_ms.le(millis_stats_of(samples).avg_ms),
        millis_stats_of(samples).avg_ms.le(millis_stats_of(samples).max_ms),
        millis_stats_of(samples).min_ms.le(millis_stats_of(samples).p95_ms),
        millis_stats_of(samples).p95_ms.le(millis_stats_of(samples).max_ms),
{
    lemma_stats_exact(samples);
    lemma_stats_ordered(samples);
    let st = stats_of(samples);
    let ms = millis_stats_of(samples);
    let n = samples.len() as int;
    let t = st.avg.num as int;
    let lo = least(samples) as int;
    let hi = greatest(samples) as int;
    let p = st.p95 as int;
    assert(0 < n * 1000 <= u128::MAX) by (nonlinear_arith)
        requires
            0 < n <= 0xffff_ffff_ffff_ffff,
            u128::MAX == 0xffff_ffff_ffff_ffff_ffff_ffff_ffff_ffff,
    ;
    assert(lo * n <= t <= hi * n) by (nonlinear_arith)
        requires
            lo * n <= t * 1,
            t * 1 <= hi * n,
    ;
    assert(lo * (n * 1000) <= t * 1000 && t * 1000 <= hi * (n * 1000)) by (nonlinear_arith)
        requires
            lo * n <= t <= hi * n,
    ;
    assert(lo * 1000 <= p * 1000 && p * 1000 <= hi * 1000) by (nonlinear_arith)
        requires
            lo <= p <= hi,
    ;
}

/// Throughput times the average in milliseconds is exactly one thousand
/// whenever the average is positive, and the throughput is zero exactly when
/// the average is.
pub proof fn lemma_millis_throughput_inverts_average(samples: Seq<u64>)
    requires
        samples.len() <= usize::MAX,
    ensures
        !millis_stats_of(samples).avg_ms.is_zero() ==> millis_stats_of(
            samples,
        ).throughput.product_is(millis_stats_of(samples).avg_ms, MILLIS_PER_SECOND as int),
        millis_stats_of(samples).throughput.is_zero() <==> millis_stats_of(
            samples,
        ).avg_ms.is_zero(),
{
    if samples.len() > 0 {
        lemma_stats_exact(samples);
        let t = stats_of(samples).avg.num as int;
        let n = samples.len() as int;
        assert(0 < n * 1000 <= u128::MAX) by (nonlinear_arith)
            requires
                0 < n <= 0xffff_ffff_ffff_ffff,
                u128::MAX == 0xffff_ffff_ffff_ffff_ffff_ffff_ffff_ffff,
        ;
        if t > 0 {
            assert((1_000_000 * n) * t == 1000 * (t * (n * 1000))) by (nonlinear_arith);
            assert(1_000_000 * n > 0) by (nonlinear_arith)
                requires
                    n > 0,
            ;
        }
    }
}

/// Expresses statistics taken in microseconds in milliseconds.
pub fn to_millis(stats: Stats) -> (millis: MillisStats)
    requires
        stats.wf(),
        stats.avg.den * MICROS_PER_MILLI <= u128::MAX,
    ensures
        millis == in_millis(stats),
        millis.wf(),
{
    MillisStats {
        avg_ms: stats.avg.scaled_down(MICROS_PER_MILLI),
        min_ms: Ratio::new(stats.min as u128, MICROS_PER_MILLI as u128),
        max_ms: Ratio::new(stats.max as u128, MICROS_PER_MILLI as u128),
        p95_ms: Ratio::new(stats.p95 as u128, MICROS_PER_MILLI as u128),
        throughput: stats.throughput,
    }
}

/// Reduces a run of microsecond samples to statistics in milliseconds. The
/// empty run gives all zeros.
pub fn compute_stats(timings_us: &Vec<u64>) -> (stats: MillisStats)
    ensures
        stats == millis_stats_of(timings_us@),
        stats.wf(),
{
    let count = timings_us.len();
    let stats = crate::stats::compute_stats(timings_us);
    proof {
        if count > 0 {
            lemma_stats_exact(timings_us@);
            assert(stats.avg.den * MICROS_PER_MILLI <= u128::MAX) by (nonlinear_arith)
                requires
                    stats.avg.den <= 0xffff_ffff_ffff_ffff,
                    MICROS_PER_MILLI == 1000,
                    u128::MAX == 0xffff_ffff_ffff_ffff_ffff_ffff_ffff_ffff,
            ;
        }
    }
    to_millis(stats)
}

/// The two private factors that iteration `i` of a proof-generation run
/// proves knowledge of.
pub open spec fn witness_of(i: u32) -> (u64, u64) {
    ((i + 3) as u64, (i + 7) as u64)
}

/// The two private factors that iteration `i` of a proof-generation run
/// proves knowledge of.
pub fn multiply_witness(i: u32) -> (factors: (u64, u64))
    ensures
        factors == witness_of(i),
{
    (i as u64 + 3, i as u64 + 7)
}

/// The outcome of a proof-generation run.
#[derive(Debug)]
pub struct ProveRun {
    pub run: SampleRun,
    /// Bytes of the first proof whose size is not zero; zero if there is
    /// none.
    pub proof_size: usize,
}

/// Times proof generation. Iteration `i` has `make` build the circuit for
/// `witness_of(i)`, times `prove` on it, and counts the iteration as failed
/// if `prove` returns nothing. Only `prove` is timed. `size` measures the
/// first proof, and later ones only as long as the size on record is zero:
/// once a proof was made, the size on record is one that `size` measured.
pub fn bench_prove_multiply<C, P, Make, Prove, Size>(
    make: &Make,
    prove: &Prove,
    size: &Size,
    iterations: u32,
) -> (out: ProveRun) where
    Make: Fn(u64, u64) -> C,
    Prove: Fn(C) -> Option<P>,
    Size: Fn(&P) -> usize,

    requires
        forall|i: u32| i < iterations ==> call_requires(make, #[trigger] witness_of(i)),
        forall|circuit: C| call_requires(prove, (circuit,)),
        forall|proof: &P| call_requires(size, (proof,)),
    ensures
        out.run.covers(iterations),
        out.run.samples@.len() == 0 ==> out.proof_size == 0,
        out.run.samples@.len() > 0 ==> exists|proof: &P| #[trigger]
            call_ensures(size, (proof,), out.proof_size),
        (forall|circuit: C, proved: Option<P>| #[trigger]
            call_ensures(prove, (circuit,), proved) ==> proved is Some)
            ==> out.run.failed_iterations == 0,
{
    let mut samples: Vec<u64> = Vec::new();
    let mut failed: u32 = 0;
    let mut proof_size: usize = 0;
    let mut i: u32 = 0;
    while i < iterations
        invariant
            i <= iterations,
            samples@.len() + failed == i,
            forall|j: u32| j < iterations ==> call_requires(make, #[trigger] witness_of(j)),
            forall|circuit: C| call_requires(prove, (circuit,)),
            forall|proof: &P| call_requires(size, (proof,)),
            samples@.len() == 0 ==> proof_size == 0,
            samples@.len() > 0 ==> exists|proof: &P| #[trigger]
                call_ensures(size, (proof,), proof_size),
            (forall|circuit: C, proved: Option<P>| #[trigger]
                call_ensures(prove, (circuit,), proved) ==> proved is Some) ==> failed == 0,
        decreases iterations - i,
    {
        let (a, b) = multiply_witness(i);
        let circuit = make(a, b);
        let start = Instant::now();
        let proved = prove(circuit);
        let micros = elapsed_micros(&start);
        match proved {
            Some(proof) => {
                samples.push(micros);
                if proof_size == 0 {
                    proof_size = size(&proof);
                }
            },
            None => {
                failed = failed + 1;
            },
        }
        i = i + 1;
    }
    let ghost taken = samples@;
    let out = ProveRun { run: SampleRun { samples, failed_iterations: failed }, proof_size };
    assert(out.run.samples@.len() > 0 ==> exists|proof: &P| #[trigger]
        call_ensures(size, (proof,), out.proof_size)) by {
        assert(out.run.samples@ == taken);
        assert(out.proof_size == proof_size);
        assert(taken.len() > 0 ==> exists|proof: &P| #[trigger]
            call_ensures(size, (proof,), proof_size));
    }
    out
}

/// Whether a verification counts as a success: it was carried out and the
/// proof was accepted.
pub open spec fn accepts(checked: Option<bool>) -> bool {
    checked == Some(true)
}

/// Whether a verification counts as a success: it was carried out and the
/// proof was accepted.
pub fn accepted(checked: Option<bool>) -> (ok: bool)
    ensures
        ok == accepts(checked),
{
    match checked {
        Some(valid) => valid,
        None => false,
    }
}

/// Times proof verification. `setup` makes once what every iteration
/// verifies; `verify` returns whether the proof was accepted, or nothing if
/// verification could not be carried out. An iteration succeeds when the
/// proof is accepted. If `setup` fails, every iteration counts as failed.
/// So the run holds one sample per iteration where `setup` cannot fail and
/// `verify` always accepts, and none where `setup` always fails or `verify`
/// never accepts.
pub fn bench_verify_multiply<T, S: Fn() -> Option<T>, V: Fn(&T) -> Option<bool>>(
    setup: &S,
    verify: &V,
    iterations: u32,
) -> (run: SampleRun)
    requires
        call_requires(setup, ()),
        forall|job: &T| call_requires(verify, (job,)),
    ensures
        run.covers(iterations),
        ((forall|made: Option<T>| #[trigger] call_ensures(setup, (), made) ==> made is Some)
            && (forall|job: &T, checked: Option<bool>| #[trigger]
            call_ensures(verify, (job,), checked) ==> accepts(checked)))
            ==> run.failed_iterations == 0,
        (forall|job: &T, checked: Option<bool>| #[trigger]
            call_ensures(verify, (job,), checked) ==> !accepts(checked))
            ==> run.samples@.len() == 0,
        (forall|made: Option<T>| #[trigger] call_ensures(setup, (), made) ==> made is None)
            ==> run.samples@.len() == 0,
{
    match setup() {
        Some(job) => {
            let op = || -> (ok: bool)
                requires
                    call_requires(verify, (&job,)),
                ensures
                    (forall|job: &T, checked: Option<bool>| #[trigger]
                        call_ensures(verify, (job,), checked) ==> accepts(checked)) ==> ok,
                    (forall|job: &T, checked: Option<bool>| #[trigger]
                        call_ensures(verify, (job,), checked) ==> !accepts(checked)) ==> !ok,
                {
                    accepted(verify(&job))
                };
            sample(&op, iterations)
        },
        None => SampleRun::all_failed(iterations),
    }
}

/// A request to measure proof generation or verification for one circuit.
#[derive(Debug, PartialEq, Eq)]
pub struct ZkBenchRequest {
    pub circuit_id: String,
    pub iterations: u32,
}

/// The measurement of proof generation. Latencies are in milliseconds.
#[derive(Debug, PartialEq, Eq)]
pub struct ZkProveBenchResponse {
    pub circuit_id: String,
    /// Iterations that were run.
    pub iterations: u32,
    pub avg_prove_ms: Ratio,
    pub min_prove_ms: Ratio,
    pub max_prove_ms: Ratio,
    pub p95_prove_ms: Ratio,
    pub avg_proof_size_bytes: usize,
    pub throughput_proofs_sec: Ratio,
    /// Iterations that failed and left no sample.
    pub failed_iterations: u32,
    /// When the measurement was taken, in seconds since the Unix epoch.
    pub timestamp: u64,
}

/// The measurement of proof verification. Latencies are in milliseconds.
#[derive(Debug, PartialEq, Eq)]
pub struct ZkVerifyBenchResponse {
    pub circuit_id: String,
    /// Iterations that were run.
    pub iterations: u32,
    pub avg_verify_ms: Ratio,
    pub min_verify_ms: Ratio,
    pub max_verify_ms: Ratio,
    pub p95_verify_ms: Ratio,
    pub throughput_verifies_sec: Ratio,
    /// Iterations that failed and left no sample.
    pub failed_iterations: u32,
    /// When the measurement was taken, in seconds since the Unix epoch.
    pub timestamp: u64,
}

impl ZkProveBenchResponse {
    /// The response echoes the circuit, names the iterations that were run,
    /// and carries the statistics of `samples` in milliseconds.
    pub open spec fn reports(
        self,
        circuit_id: Seq<char>,
        iterations: u32,
        samples: Seq<u64>,
        failed_iterations: u32,
        proof_size: usize,
    ) -> bool {
        &&& self.circuit_id@ == circuit_id
        &&& self.iterations == iterations
        &&& self.avg_prove_ms == millis_stats_of(samples).avg_ms
        &&& self.min_prove_ms == millis_stats_of(samples).min_ms
        &&& self.max_prove_ms == millis_stats_of(samples).max_ms
        &&& self.p95_prove_ms == millis_stats_of(samples).p95_ms
        &&& self.throughput_proofs_sec == millis_stats_of(samples).throughput
        &&& self.avg_proof_size_bytes == proof_size
        &&& self.failed_iterations == failed_iterations
    }
}

impl ZkVerifyBenchResponse {
    /// The response echoes the circuit, names the iterations that were run,
    /// and carries the statistics of `samples` in milliseconds.
    pub open spec fn reports(
        self,
        circuit_id: Seq<char>,
        iterations: u32,
        samples: Seq<u64>,
        failed_iterations: u32,
    ) -> bool {
        &&& self.circuit_id@ == circuit_id
        &&& self.iterations == iterations
        &&& self.avg_verify_ms == millis_stats_of(samples).avg_ms
        &&& self.min_verify_ms == millis_stats_of(samples).min_ms
        &&& self.max_verify_ms == millis_stats_of(samples).max_ms
        &&& self.p95_verify_ms == millis_stats_of(samples).p95_ms
        &&& self.throughput_verifies_sec == millis_stats_of(samples).throughput
        &&& self.failed_iterations == failed_iterations
    }
}

/// The response to `request` for a proof-generation run of `iterations`
/// iterations, stamped `timestamp`.
pub fn zk_prove_response(
    request: ZkBenchRequest,
    iterations: u32,
    out: &ProveRun,
    timestamp: u64,
) -> (response: ZkProveBenchResponse)
    ensures
        response.reports(
            request.circuit_id@,
            iterations,
            out.run.samples@,
            out.run.failed_iterations,
            out.proof_size,
        ),
        response.timestamp == timestamp,
{
    let stats = compute_stats(&out.run.samples);
    ZkProveBenchResponse {
        circuit_id: request.circuit_id,
        iterations,
        avg_prove_ms: stats.avg_ms,
        min_prove_ms: stats.min_ms,
        max_prove_ms: stats.max_ms,
        p95_prove_ms: stats.p95_ms,
        avg_proof_size_bytes: out.proof_size,
        throughput_proofs_sec: stats.throughput,
        failed_iterations: out.run.failed_iterations,
        timestamp,
    }
}

/// The response to `request` for a proof-verification run of `iterations`
/// iterations, stamped `timestamp`.
pub fn zk_verify_response(
    request: ZkBenchRequest,
    iterations: u32,
    run: &SampleRun,
    timestamp: u64,
) -> (response: ZkVerifyBenchResponse)
    ensures
        response.reports(request.circuit_id@, iterations, run.samples@, run.failed_iterations),
        response.timestamp == timestamp,
{
    let stats = compute_stats(&run.samples);
    ZkVerifyBenchResponse {
        circuit_id: request.circuit_id,
        iterations,
        avg_verify_ms: stats.avg_ms,
        min_verify_ms: stats.min_ms,
        max_verify_ms: stats.max_ms,
        p95_verify_ms: stats.p95_ms,
        throughput_verifies_sec: stats.throughput,
        failed_iterations: run.failed_iterations,
        timestamp,
    }
}

/// A request that has been accepted: what to run, and how often.
#[derive(Clone, Copy, Debug, PartialEq, Eq, Structural)]
pub struct ZkPlan {
    pub circuit: Circuit,
    /// The requested iterations, brought into the family's range.
    pub iterations: u32,
}

/// The iterations that a request of `family` for `requested` iterations
/// runs.
pub open spec fn zk_iterations(family: Family, requested: u32) -> u32 {
    clamped(requested as int, family.limit() as int) as u32
}

/// What `validate` owes for a request: for a valid circuit, the plan with
/// the clamped number of iterations; otherwise the error that carries the
/// circuit name. The number of iterations alone never rejects a request.
pub open spec fn validated(
    outcome: Result<ZkPlan, AppError>,
    request: ZkBenchRequest,
    family: Family,
) -> bool {
    match Circuit::named(request.circuit_id@) {
        Some(circuit) => outcome == Ok::<ZkPlan, AppError>(
            ZkPlan { circuit, iterations: zk_iterations(family, request.iterations) },
        ),
        None => {
            &&& outcome matches Err(AppError::InvalidCircuit(value))
            &&& value@ == request.circuit_id@
        },
    }
}

/// Accepts or rejects a request of `family`: resolves the circuit and
/// clamps the iteration count into the family's range.
pub fn validate(request: &ZkBenchRequest, family: Family) -> (outcome: Result<ZkPlan, AppError>)
    ensures
        validated(outcome, *request, family),
{
    let iterations = family.clamp_iterations(request.iterations as i64);
    match Circuit::parse(request.circuit_id.as_str()) {
        Some(circuit) => Ok(ZkPlan { circuit, iterations }),
        None => Err(AppError::InvalidCircuit(request.circuit_id.clone())),
    }
}

/// What `zk_prove_bench` owes for a request: for a request that `validate`
/// accepts, a response that reports a run of the planned number of
/// iterations; otherwise the error of `validate`.
pub open spec fn zk_prove_outcome(
    outcome: Result<ZkProveBenchResponse, AppError>,
    request: ZkBenchRequest,
) -> bool {
    let iterations = zk_iterations(Family::ProofGeneration, request.iterations);
    match Circuit::named(request.circuit_id@) {
        Some(_) => {
            &&& outcome matches Ok(response)
            &&& exists|samples: Seq<u64>|
                #![trigger millis_stats_of(samples)]
                {
                    &&& samples.len() + response.failed_iterations == iterations
                    &&& response.reports(
                        request.circuit_id@,
                        iterations,
                        samples,
                        response.failed_iterations,
                        response.avg_proof_size_bytes,
                    )
                    &&& samples.len() == 0 ==> response.avg_proof_size_bytes == 0
                }
        },
        None => {
            &&& outcome matches Err(AppError::InvalidCircuit(value))
            &&& value@ == request.circuit_id@
        },
    }
}

/// What `zk_verify_bench` owes for a request: for a request that `validate`
/// accepts, a response that reports a run of the planned number of
/// iterations; otherwise the error of `validate`.
pub open spec fn zk_verify_outcome(
    outcome: Result<ZkVerifyBenchResponse, AppError>,
    request: ZkBenchRequest,
) -> bool {
    let iterations = zk_iterations(Family::ProofVerification, request.iterations);
    match Circuit::named(request.circuit_id@) {
        Some(_) => {
            &&& outcome matches Ok(response)
            &&& exists|samples: Seq<u64>|
                #![trigger millis_stats_of(samples)]
                {
                    &&& samples.len() + response.failed_iterations == iterations
                    &&& response.reports(
                        request.circuit_id@,
                        iterations,
                        samples,
                        response.failed_iterations,
                    )
                }
        },
        None => {
            &&& outcome matches Err(AppError::InvalidCircuit(value))
            &&& value@ == request.circuit_id@
        },
    }
}

/// Handles one proof-generation request: validates it, times the planned
/// number of proofs of the circuit, and reports the statistics of the run.
/// None of `make`, `prove` and `size` is called for a request that is
/// rejected.
pub fn zk_prove_bench<C, P, Make, Prove, Size>(
    request: ZkBenchRequest,
    make: &Make,
    prove: &Prove,
    size: &Size,
) -> (outcome: Result<ZkProveBenchResponse, AppError>) where
    Make: Fn(u64, u64) -> C,
    Prove: Fn(C) -> Option<P>,
    Size: Fn(&P) -> usize,

    requires
        forall|i: u32|
            i < Family::ProofGeneration.limit() ==> call_requires(make, #[trigger] witness_of(i)),
        forall|circuit: C| call_requires(prove, (circuit,)),
        forall|proof: &P| call_requires(size, (proof,)),
    ensures
        zk_prove_outcome(outcome, request),
        (forall|circuit: C, proved: Option<P>| #[trigger]
            call_ensures(prove, (circuit,), proved) ==> proved is Some) ==> (outcome matches Ok(
            response,
        ) ==> response.failed_iterations == 0),
        outcome matches Ok(response) ==> (response.failed_iterations < response.iterations
            ==> exists|proof: &P| call_ensures(size, (proof,), response.avg_proof_size_bytes)),
{
    match validate(&request, Family::ProofGeneration) {
        Ok(plan) => match plan.circuit {
            Circuit::Multiply => {
                let out = bench_prove_multiply(make, prove, size, plan.iterations);
                Ok(zk_prove_response(request, plan.iterations, &out, current_timestamp()))
            },
        },
        Err(error) => Err(error),
    }
}

/// Handles one proof-verification request: validates it, times the planned
/// number of verifications of one proof of the circuit, and reports the
/// statistics of the run. Neither `setup` nor `verify` is called for a
/// request that is rejected.
pub fn zk_verify_bench<T, S: Fn() -> Option<T>, V: Fn(&T) -> Option<bool>>(
    request: ZkBenchRequest,
    setup: &S,
    verify: &V,
) -> (outcome: Result<ZkVerifyBenchResponse, AppError>)
    requires
        call_requires(setup, ()),
        forall|job: &T| call_requires(verify, (job,)),
    ensures
        zk_verify_outcome(outcome, request),
        ((forall|made: Option<T>| #[trigger] call_ensures(setup, (), made) ==> made is Some)
            && (forall|job: &T, checked: Option<bool>| #[trigger]
            call_ensures(verify, (job,), checked) ==> accepts(checked))) ==> (outcome matches Ok(
            response,
        ) ==> response.failed_iterations == 0),
        ((forall|job: &T, checked: Option<bool>| #[trigger]
            call_ensures(verify, (job,), checked) ==> !accepts(checked)) || (forall|
            made: Option<T>,
        | #[trigger] call_ensures(setup, (), made) ==> made is None)) ==> (outcome matches Ok(
            response,
        ) ==> response.failed_iterations == response.iterations),
{
    match validate(&request, Family::ProofVerification) {
        Ok(plan) => match plan.circuit {
            Circuit::Multiply => {
                let run = bench_verify_multiply(setup, verify, plan.iterations);
                Ok(zk_verify_response(request, plan.iterations, &run, current_timestamp()))
            },
        },
        Err(error) => Err(error),
    }
}

} // verus!
