//! The key-encapsulation measurement endpoint: the timed ML-KEM operations,
//! their dispatch by parameter set and operation name, and the request and
//! response of a measurement.
//!
//! Whatever an operation needs beforehand (a key pair, a ciphertext) is made
//! once, before the sampling run, and reused by every iteration.

use vstd::prelude::*;
use ml_kem::kem::{Decapsulate, Encapsulate};
use ml_kem::KemCore;
use rand::rngs::OsRng;
use crate::clock::current_timestamp;
use crate::identity::{AppError, Family, KemOperation, ParamSet, clamped};
use crate::ratio::Ratio;
use crate::sampler::{sample, SampleRun};
use crate::stats::{compute_stats, stats_of, Stats};

verus! {

/// Bytes of the secret that the two sides of an encapsulation share.
pub const SHARED_SECRET_BYTES: usize = 32;

/// A decapsulation key of ML-KEM-512 with its encapsulation key, as
/// `ml_kem` holds them. Opaque here.
#[verifier::external_body]
pub struct Keys512 {
    dk: ml_kem::kem::DecapsulationKey<ml_kem::MlKem512Params>,
    ek: ml_kem::kem::EncapsulationKey<ml_kem::MlKem512Params>,
}

/// A ciphertext of ML-KEM-512, as `ml_kem` holds it. Opaque here.
#[verifier::external_body]
pub struct Ciphertext512 {
    ct: ml_kem::Ciphertext<ml_kem::MlKem512>,
}

/// A decapsulation key of ML-KEM-768 with its encapsulation key, as
/// `ml_kem` holds them. Opaque here.
#[verifier::external_body]
pub struct Keys768 {
    dk: ml_kem::kem::DecapsulationKey<ml_kem::MlKem768Params>,
    ek: ml_kem::kem::EncapsulationKey<ml_kem::MlKem768Params>,
}

/// A ciphertext of ML-KEM-768, as `ml_kem` holds it. Opaque here.
#[verifier::external_body]
pub struct Ciphertext768 {
    ct: ml_kem::Ciphertext<ml_kem::MlKem768>,
}

/// A decapsulation key of ML-KEM-1024 with its encapsulation key, as
/// `ml_kem` holds them. Opaque here.
#[verifier::external_body]
pub struct Keys1024 {
    dk: ml_kem::kem::DecapsulationKey<ml_kem::MlKem1024Params>,
    ek: ml_kem::kem::EncapsulationKey<ml_kem::MlKem1024Params>,
}

/// A ciphertext of ML-KEM-1024, as `ml_kem` holds it. Opaque here.
#[verifier::external_body]
pub struct Ciphertext1024 {
    ct: ml_kem::Ciphertext<ml_kem::MlKem1024>,
}

/// `ml_kem::MlKem512::generate` with the operating system's random number
/// generator: a fresh key pair. Nothing is claimed of the keys.
#[verifier::external_body]
fn generate_512() -> (keys: Keys512)
{
    let (dk, ek) = ml_kem::MlKem512::generate(&mut OsRng);
    Keys512 { dk, ek }
}

/// `Encapsulate::encapsulate` on an ML-KEM-512 encapsulation key with the
/// operating system's random number generator: a ciphertext and the shared
/// secret. `ml_kem` returns `Ok` on every path of this function, so a result
/// is always there. Nothing is claimed of the ciphertext or the secret.
#[verifier::external_body]
fn encapsulate_512(keys: &Keys512) -> (sent: Option<(Ciphertext512, [u8; 32])>)
    ensures
        sent is Some,
{
    match keys.ek.encapsulate(&mut OsRng) {
        Ok((ct, secret)) => Some((Ciphertext512 { ct }, secret.into())),
        Err(_) => None,
    }
}

/// `Decapsulate::decapsulate` on an ML-KEM-512 decapsulation key: the
/// shared secret that the ciphertext carries. `ml_kem` returns `Ok` on every
/// path of this function, so a result is always there. Nothing is claimed of
/// the secret.
#[verifier::external_body]
fn decapsulate_512(keys: &Keys512, ciphertext: &Ciphertext512) -> (received: Option<
    [u8; 32],
>)
    ensures
        received is Some,
{
    match keys.dk.decapsulate(&ciphertext.ct) {
        Ok(secret) => Some(secret.into()),
        Err(_) => None,
    }
}

/// `ml_kem::MlKem768::generate` with the operating system's random number
/// generator: a fresh key pair. Nothing is claimed of the keys.
#[verifier::external_body]
fn generate_768() -> (keys: Keys768)
{
    let (dk, ek) = ml_kem::MlKem768::generate(&mut OsRng);
    Keys768 { dk, ek }
}

/// `Encapsulate::encapsulate` on an ML-KEM-768 encapsulation key with the
/// operating system's random number generator: a ciphertext and the shared
/// secret. `ml_kem` returns `Ok` on every path of this function, so a result
/// is always there. Nothing is claimed of the ciphertext or the secret.
#[verifier::external_body]
fn encapsulate_768(keys: &Keys768) -> (sent: Option<(Ciphertext768, [u8; 32])>)
    ensures
        sent is Some,
{
    match keys.ek.encapsulate(&mut OsRng) {
        Ok((ct, secret)) => Some((Ciphertext768 { ct }, secret.into())),
        Err(_) => None,
    }
}

/// `Decapsulate::decapsulate` on an ML-KEM-768 decapsulation key: the
/// shared secret that the ciphertext carries. `ml_kem` returns `Ok` on every
/// path of this function, so a result is always there. Nothing is claimed of
/// the secret.
#[verifier::external_body]
fn decapsulate_768(keys: &Keys768, ciphertext: &Ciphertext768) -> (received: Option<
    [u8; 32],
>)
    ensures
        received is Some,
{
    match keys.dk.decapsulate(&ciphertext.ct) {
        Ok(secret) => Some(secret.into()),
        Err(_) => None,
    }
}

/// `ml_kem::MlKem1024::generate` with the operating system's random number
/// generator: a fresh key pair. Nothing is claimed of the keys.
#[verifier::external_body]
fn generate_1024() -> (keys: Keys1024)
{
    let (dk, ek) = ml_kem::MlKem1024::generate(&mut OsRng);
    Keys1024 { dk, ek }
}

/// `Encapsulate::encapsulate` on an ML-KEM-1024 encapsulation key with the
/// operating system's random number generator: a ciphertext and the shared
/// secret. `ml_kem` returns `Ok` on every path of this function, so a result
/// is always there. Nothing is claimed of the ciphertext or the secret.
#[verifier::external_body]
fn encapsulate_1024(keys: &Keys1024) -> (sent: Option<(Ciphertext1024, [u8; 32])>)
    ensures
        sent is Some,
{
    match keys.ek.encapsulate(&mut OsRng) {
        Ok((ct, secret)) => Some((Ciphertext1024 { ct }, secret.into())),
        Err(_) => None,
    }
}

/// `Decapsulate::decapsulate` on an ML-KEM-1024 decapsulation key: the
/// shared secret that the ciphertext carries. `ml_kem` returns `Ok` on every
/// path of this function, so a result is always there. Nothing is claimed of
/// the secret.
#[verifier::external_body]
fn decapsulate_1024(keys: &Keys1024, ciphertext: &Ciphertext1024) -> (received: Option<
    [u8; 32],
>)
    ensures
        received is Some,
{
    match keys.dk.decapsulate(&ciphertext.ct) {
        Ok(secret) => Some(secret.into()),
        Err(_) => None,
    }
}

/// A key-encapsulation mechanism as the benchmarks use it.
pub trait KemScheme {
    /// A decapsulation key together with its encapsulation key.
    type Keys;

    type Ciphertext;

    /// Whether encapsulation and decapsulation of this scheme return a
    /// result on every call.
    spec fn infallible() -> bool;

    /// A fresh key pair.
    fn generate() -> Self::Keys;

    /// A fresh shared secret and the ciphertext that carries it to the
    /// holder of the decapsulation key; always there for an infallible
    /// scheme.
    fn encapsulate(keys: &Self::Keys) -> (sent: Option<(Self::Ciphertext, [u8; 32])>)
        ensures
            Self::infallible() ==> sent is Some,
    ;

    /// The shared secret that `ciphertext` carries; always there for an
    /// infallible scheme.
    fn decapsulate(keys: &Self::Keys, ciphertext: &Self::Ciphertext) -> (received: Option<
        [u8; 32],
    >)
        ensures
            Self::infallible() ==> received is Some,
    ;
}

/// ML-KEM with parameter set 512.
pub struct MlKem512;

/// ML-KEM with parameter set 768.
pub struct MlKem768;

/// ML-KEM with parameter set 1024.
pub struct MlKem1024;

impl KemScheme for MlKem512 {
    type Keys = Keys512;

    type Ciphertext = Ciphertext512;

    open spec fn infallible() -> bool {
        true
    }

    fn generate() -> Keys512 {
        generate_512()
    }

    fn encapsulate(keys: &Keys512) -> (sent: Option<(Ciphertext512, [u8; 32])>) {
        encapsulate_512(keys)
    }

    fn decapsulate(keys: &Keys512, ciphertext: &Ciphertext512) -> (received: Option<[u8; 32]>) {
        decapsulate_512(keys, ciphertext)
    }
}

impl KemScheme for MlKem768 {
    type Keys = Keys768;

    type Ciphertext = Ciphertext768;

    open spec fn infallible() -> bool {
        true
    }

    fn generate() -> Keys768 {
        generate_768()
    }

    fn encapsulate(keys: &Keys768) -> (sent: Option<(Ciphertext768, [u8; 32])>) {
        encapsulate_768(keys)
    }

    fn decapsulate(keys: &Keys768, ciphertext: &Ciphertext768) -> (received: Option<[u8; 32]>) {
        decapsulate_768(keys, ciphertext)
    }
}

impl KemScheme for MlKem1024 {
    type Keys = Keys1024;

    type Ciphertext = Ciphertext1024;

    open spec fn infallible() -> bool {
        true
    }

    fn generate() -> Keys1024 {
        generate_1024()
    }

    fn encapsulate(keys: &Keys1024) -> (sent: Option<(Ciphertext1024, [u8; 32])>) {
        encapsulate_1024(keys)
    }

    fn decapsulate(keys: &Keys1024, ciphertext: &Ciphertext1024) -> (received: Option<[u8; 32]>) {
        decapsulate_1024(keys, ciphertext)
    }
}

/// Whether the two sides hold the same secret.
pub fn same_secret(sent: &[u8; 32], received: &[u8; 32]) -> (same: bool)
    ensures
        same == (sent@ == received@),
{
    let mut i: usize = 0;
    while i < SHARED_SECRET_BYTES
        invariant
            i <= SHARED_SECRET_BYTES,
            forall|j: int| 0 <= j < i ==> sent@[j] == received@[j],
        decreases SHARED_SECRET_BYTES - i,
    {
        if sent[i] != received[i] {
            return false;
        }
        i = i + 1;
    }
    assert(sent@ =~= received@);
    true
}

/// The receiver got a secret out of the ciphertext, and it is the one that
/// was sent.
pub open spec fn agrees(sent: [u8; 32], received: Option<[u8; 32]>) -> bool {
    received matches Some(secret) && secret@ == sent@
}

/// Whether the two sides of a handshake agree: the receiver got a secret
/// out of the ciphertext, and it is the one that was sent.
pub fn agreement(sent: &[u8; 32], received: &Option<[u8; 32]>) -> (agreed: bool)
    ensures
        agreed == agrees(*sent, *received),
{
    match received {
        Some(secret) => same_secret(sent, secret),
        None => false,
    }
}

/// One full handshake: a fresh key pair, an encapsulation to it and the
/// decapsulation. It succeeds when both sides end with the same secret.
pub fn handshake<K: KemScheme>() -> (agreed: bool)
{
    let keys = K::generate();
    match K::encapsulate(&keys) {
        Some((ciphertext, sent)) => agreement(&sent, &K::decapsulate(&keys, &ciphertext)),
        None => false,
    }
}

/// Times key generation. Key generation cannot fail, so the run holds
/// exactly `iterations` samples.
pub fn bench_keygen<K: KemScheme>(iterations: u32) -> (run: SampleRun)
    ensures
        run.covers(iterations),
        run.failed_iterations == 0,
{
    let op = || -> (ok: bool)
        ensures
            ok,
        {
            let _ = K::generate();
            true
        };
    sample(&op, iterations)
}

/// Times encapsulation to one key pair made beforehand. With an infallible
/// scheme the run holds exactly `iterations` samples.
pub fn bench_encaps<K: KemScheme>(iterations: u32) -> (run: SampleRun)
    ensures
        run.covers(iterations),
        K::infallible() ==> run.failed_iterations == 0,
{
    let keys = K::generate();
    let op = || -> (ok: bool)
        ensures
            K::infallible() ==> ok,
        {
            K::encapsulate(&keys).is_some()
        };
    sample(&op, iterations)
}

/// Times decapsulation of one ciphertext made beforehand. If the ciphertext
/// cannot be made, every iteration counts as failed. With an infallible
/// scheme the run holds exactly `iterations` samples.
pub fn bench_decaps<K: KemScheme>(iterations: u32) -> (run: SampleRun)
    ensures
        run.covers(iterations),
        K::infallible() ==> run.failed_iterations == 0,
{
    let keys = K::generate();
    match K::encapsulate(&keys) {
        Some((ciphertext, _)) => {
            let op = || -> (ok: bool)
                ensures
                    K::infallible() ==> ok,
                {
                    K::decapsulate(&keys, &ciphertext).is_some()
                };
            sample(&op, iterations)
        },
        None => SampleRun::all_failed(iterations),
    }
}

/// Times full handshakes. A handshake whose two sides disagree on the
/// secret counts as failed.
pub fn bench_full_handshake<K: KemScheme>(iterations: u32) -> (run: SampleRun)
    ensures
        run.covers(iterations),
{
    let op = || -> (ok: bool)
        {
            handshake::<K>()
        };
    sample(&op, iterations)
}

/// Whether no iteration of `operation` can fail: key generation never
/// fails, encapsulation and decapsulation do not fail with an infallible
/// scheme, and a handshake fails whenever its two sides disagree.
pub open spec fn cannot_fail(operation: KemOperation, infallible: bool) -> bool {
    match operation {
        KemOperation::Keygen => true,
        KemOperation::Encaps => infallible,
        KemOperation::Decaps => infallible,
        KemOperation::FullHandshake => false,
    }
}

/// Runs `operation` of scheme `K` for `iterations` iterations.
pub fn measure_operation<K: KemScheme>(operation: KemOperation, iterations: u32) -> (run:
    SampleRun)
    ensures
        run.covers(iterations),
        cannot_fail(operation, K::infallible()) ==> run.failed_iterations == 0,
{
    match operation {
        KemOperation::Keygen => bench_keygen::<K>(iterations),
        KemOperation::Encaps => bench_encaps::<K>(iterations),
        KemOperation::Decaps => bench_decaps::<K>(iterations),
        KemOperation::FullHandshake => bench_full_handshake::<K>(iterations),
    }
}

/// Runs `operation` of ML-KEM with `param_set` for `iterations` iterations.
/// ML-KEM is infallible: only a handshake can leave fewer samples than
/// iterations.
pub fn measure(param_set: ParamSet, operation: KemOperation, iterations: u32) -> (run: SampleRun)
    ensures
        run.covers(iterations),
        cannot_fail(operation, true) ==> run.failed_iterations == 0,
{
    match param_set {
        ParamSet::MlKem512 => measure_operation::<MlKem512>(operation, iterations),
        ParamSet::MlKem768 => measure_operation::<MlKem768>(operation, iterations),
        ParamSet::MlKem1024 => measure_operation::<MlKem1024>(operation, iterations),
    }
}

/// What `run_operation` owes for an operation name: a run that covers the
/// iterations for a valid name, and the name back in an error otherwise.
pub open spec fn operation_outcome(
    outcome: Result<SampleRun, AppError>,
    operation: Seq<char>,
    iterations: u32,
    infallible: bool,
) -> bool {
    match KemOperation::named(operation) {
        Some(op) => {
            &&& outcome matches Ok(run)
            &&& run.covers(iterations)
            &&& cannot_fail(op, infallible) ==> run.failed_iterations == 0
        },
        None => {
            &&& outcome matches Err(AppError::InvalidOperation(value))
            &&& value@ == operation
        },
    }
}

/// What `run_benchmark` owes for a parameter set and an operation name. An
/// invalid parameter set is reported before an invalid operation.
pub open spec fn benchmark_outcome(
    outcome: Result<SampleRun, AppError>,
    param_set: Seq<char>,
    operation: Seq<char>,
    iterations: u32,
) -> bool {
    match ParamSet::named(param_set) {
        Some(_) => operation_outcome(outcome, operation, iterations, true),
        None => {
            &&& outcome matches Err(AppError::InvalidParamSet(value))
            &&& value@ == param_set
        },
    }
}

/// Runs the named operation of scheme `K` for `iterations` iterations.
pub fn run_operation<K: KemScheme>(operation: &str, iterations: u32) -> (outcome: Result<
    SampleRun,
    AppError,
>)
    ensures
        operation_outcome(outcome, operation@, iterations, K::infallible()),
{
    match KemOperation::parse(operation) {
        Some(operation) => Ok(measure_operation::<K>(operation, iterations)),
        None => Err(AppError::InvalidOperation(operation.to_owned())),
    }
}

/// Runs the named operation of the named parameter set for `iterations`
/// iterations.
pub fn run_benchmark(param_set: &str, operation: &str, iterations: u32) -> (outcome: Result<
    SampleRun,
    AppError,
>)
    ensures
        benchmark_outcome(outcome, param_set@, operation@, iterations),
{
    match ParamSet::parse(param_set) {
        Some(ParamSet::MlKem512) => run_operation::<MlKem512>(operation, iterations),
        Some(ParamSet::MlKem768) => run_operation::<MlKem768>(operation, iterations),
        Some(ParamSet::MlKem1024) => run_operation::<MlKem1024>(operation, iterations),
        None => Err(AppError::InvalidParamSet(param_set.to_owned())),
    }
}

/// A request to measure one key-encapsulation operation.
#[derive(Debug, PartialEq, Eq)]
pub struct KemBenchRequest {
    pub param_set: String,
    pub iterations: u32,
    pub operation: String,
}

/// The measurement of one key-encapsulation operation. Latencies are in
/// microseconds.
#[derive(Debug, PartialEq, Eq)]
pub struct KemBenchResponse {
    pub operation: String,
    pub param_set: String,
    /// Iterations that were run.
    pub iterations: u32,
    pub avg_us: Ratio,
    pub min_us: u64,
    pub max_us: u64,
    pub p95_us: u64,
    pub throughput_ops_sec: Ratio,
    /// Iterations that failed and left no sample.
    pub failed_iterations: u32,
    /// When the measurement was taken, in seconds since the Unix epoch.
    pub timestamp: u64,
}

impl KemBenchResponse {
    /// The response echoes the request, names the iterations that were run,
    /// and carries the statistics of `samples`.
    pub open spec fn reports(
        self,
        param_set: Seq<char>,
        operation: Seq<char>,
        iterations: u32,
        samples: Seq<u64>,
        failed_iterations: u32,
    ) -> bool {
        &&& self.operation@ == operation
        &&& self.param_set@ == param_set
        &&& self.iterations == iterations
        &&& self.avg_us == stats_of(samples).avg
        &&& self.min_us == stats_of(samples).min
        &&& self.max_us == stats_of(samples).max
        &&& self.p95_us == stats_of(samples).p95
        &&& self.throughput_ops_sec == stats_of(samples).throughput
        &&& self.failed_iterations == failed_iterations
    }
}

/// The response to `request` for a sampling run of `iterations` iterations,
/// stamped `timestamp`.
pub fn kem_response(
    request: KemBenchRequest,
    iterations: u32,
    run: &SampleRun,
    timestamp: u64,
) -> (response: KemBenchResponse)
    ensures
        response.reports(
            request.param_set@,
            request.operation@,
            iterations,
            run.samples@,
            run.failed_iterations,
        ),
        response.timestamp == timestamp,
{
    let stats: Stats = compute_stats(&run.samples);
    KemBenchResponse {
        operation: request.operation,
        param_set: request.param_set,
        iterations,
        avg_us: stats.avg,
        min_us: stats.min,
        max_us: stats.max,
        p95_us: stats.p95,
        throughput_ops_sec: stats.throughput,
        failed_iterations: run.failed_iterations,
        timestamp,
    }
}

/// A request that has been accepted: what to run, and how often.
#[derive(Clone, Copy, Debug, PartialEq, Eq, Structural)]
pub struct KemPlan {
    pub param_set: ParamSet,
    pub operation: KemOperation,
    /// The requested iterations, brought into the family's range.
    pub iterations: u32,
}

/// The iterations that a request for `requested` iterations runs.
pub open spec fn kem_iterations(requested: u32) -> u32 {
    clamped(requested as int, Family::KeyEncapsulation.limit() as int) as u32
}

/// What `validate` owes for a request: for valid names, the plan with the
/// clamped number of iterations; otherwise the error that names the first
/// invalid field. The number of iterations alone never rejects a request.
pub open spec fn validated(outcome: Result<KemPlan, AppError>, request: KemBenchRequest) -> bool {
    match ParamSet::named(request.param_set@) {
        Some(param_set) => match KemOperation::named(request.operation@) {
            Some(operation) => outcome == Ok::<KemPlan, AppError>(
                KemPlan { param_set, operation, iterations: kem_iterations(request.iterations) },
            ),
            None => {
                &&& outcome matches Err(AppError::InvalidOperation(value))
                &&& value@ == request.operation@
            },
        },
        None => {
            &&& outcome matches Err(AppError::InvalidParamSet(value))
            &&& value@ == request.param_set@
        },
    }
}

/// Accepts or rejects a request: resolves the two names and clamps the
/// iteration count into the family's range.
pub fn validate(request: &KemBenchRequest) -> (outcome: Result<KemPlan, AppError>)
    ensures
        validated(outcome, *request),
{
    let iterations = Family::KeyEncapsulation.clamp_iterations(request.iterations as i64);
    match ParamSet::parse(request.param_set.as_str()) {
        Some(param_set) => match KemOperation::parse(request.operation.as_str()) {
            Some(operation) => Ok(KemPlan { param_set, operation, iterations }),
            None => Err(AppError::InvalidOperation(request.operation.clone())),
        },
        None => Err(AppError::InvalidParamSet(request.param_set.clone())),
    }
}

/// What `kem_bench` owes for a request: for a request that `validate`
/// accepts, a response that reports a run of the planned number of
/// iterations; otherwise the error of `validate`.
pub open spec fn kem_bench_outcome(
    outcome: Result<KemBenchResponse, AppError>,
    request: KemBenchRequest,
) -> bool {
    match ParamSet::named(request.param_set@) {
        Some(_) => match KemOperation::named(request.operation@) {
            Some(op) => {
                &&& outcome matches Ok(response)
                &&& exists|samples: Seq<u64>|
                    #![trigger stats_of(samples)]
                    {
                        &&& samples.len() + response.failed_iterations == kem_iterations(
                            request.iterations,
                        )
                        &&& response.reports(
                            request.param_set@,
                            request.operation@,
                            kem_iterations(request.iterations),
                            samples,
                            response.failed_iterations,
                        )
                    }
                &&& cannot_fail(op, true) ==> response.failed_iterations == 0
            },
            None => {
                &&& outcome matches Err(AppError::InvalidOperation(value))
                &&& value@ == request.operation@
            },
        },
        None => {
            &&& outcome matches Err(AppError::InvalidParamSet(value))
            &&& value@ == request.param_set@
        },
    }
}

/// Handles one measurement request: validates it, runs the named operation
/// for the planned number of iterations, and reports the statistics of the
/// run.
pub fn kem_bench(request: KemBenchRequest) -> (outcome: Result<KemBenchResponse, AppError>)
    ensures
        kem_bench_outcome(outcome, request),
{
    match validate(&request) {
        Ok(plan) => {
            let run = measure(plan.param_set, plan.operation, plan.iterations);
            Ok(kem_response(request, plan.iterations, &run, current_timestamp()))
        },
        Err(error) => Err(error),
    }
}

} // verus!
