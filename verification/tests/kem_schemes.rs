use latency_bench::identity::AppError;
use latency_bench::kem::{
    bench_decaps, bench_encaps, bench_full_handshake, bench_keygen, handshake, run_operation,
    KemScheme,
};
use std::sync::atomic::{AtomicU32, Ordering};

/// A scheme whose two sides always agree: the secret is the key's number.
struct Agreeing;

static AGREEING_KEYS: AtomicU32 = AtomicU32::new(0);
static AGREEING_ENCAPS: AtomicU32 = AtomicU32::new(0);
static AGREEING_DECAPS: AtomicU32 = AtomicU32::new(0);

impl KemScheme for Agreeing {
    type Keys = u8;
    type Ciphertext = u8;

    fn infallible() -> bool {
        true
    }

    fn generate() -> u8 {
        AGREEING_KEYS.fetch_add(1, Ordering::SeqCst);
        9
    }

    fn encapsulate(keys: &u8) -> Option<(u8, [u8; 32])> {
        AGREEING_ENCAPS.fetch_add(1, Ordering::SeqCst);
        Some((*keys, [*keys; 32]))
    }

    fn decapsulate(_keys: &u8, ciphertext: &u8) -> Option<[u8; 32]> {
        AGREEING_DECAPS.fetch_add(1, Ordering::SeqCst);
        Some([*ciphertext; 32])
    }
}

/// A scheme whose receiver always ends with another secret. It makes no
/// promise to return a result on every call, though it does.
struct Disagreeing;

impl KemScheme for Disagreeing {
    type Keys = ();
    type Ciphertext = ();

    fn infallible() -> bool {
        false
    }

    fn generate() {}

    fn encapsulate(_keys: &()) -> Option<((), [u8; 32])> {
        Some(((), [1; 32]))
    }

    fn decapsulate(_keys: &(), _ciphertext: &()) -> Option<[u8; 32]> {
        Some([2; 32])
    }
}

/// A scheme that can make keys and nothing else.
struct Broken;

impl KemScheme for Broken {
    type Keys = ();
    type Ciphertext = ();

    fn infallible() -> bool {
        false
    }

    fn generate() {}

    fn encapsulate(_keys: &()) -> Option<((), [u8; 32])> {
        None
    }

    fn decapsulate(_keys: &(), _ciphertext: &()) -> Option<[u8; 32]> {
        None
    }
}

#[test]
fn setup_is_paid_once_per_run() {
    let keys = AGREEING_KEYS.load(Ordering::SeqCst);
    let encaps = AGREEING_ENCAPS.load(Ordering::SeqCst);
    let decaps = AGREEING_DECAPS.load(Ordering::SeqCst);
    let run = bench_decaps::<Agreeing>(50);
    assert_eq!(run.samples.len(), 50);
    assert_eq!(run.failed_iterations, 0);
    assert_eq!(AGREEING_KEYS.load(Ordering::SeqCst), keys + 1);
    assert_eq!(AGREEING_ENCAPS.load(Ordering::SeqCst), encaps + 1);
    assert_eq!(AGREEING_DECAPS.load(Ordering::SeqCst), decaps + 50);
}

#[test]
fn disagreeing_sides_fail_the_handshake() {
    assert!(!handshake::<Disagreeing>());
    let run = bench_full_handshake::<Disagreeing>(6);
    assert_eq!(run.samples.len(), 0);
    assert_eq!(run.failed_iterations, 6);
}

#[test]
fn failed_encapsulation_is_counted_per_iteration() {
    let run = bench_encaps::<Broken>(5);
    assert_eq!(run.samples.len(), 0);
    assert_eq!(run.failed_iterations, 5);
    assert!(!handshake::<Broken>());
    assert_eq!(bench_full_handshake::<Broken>(2).failed_iterations, 2);
}

#[test]
fn failed_setup_fails_every_decapsulation() {
    let run = bench_decaps::<Broken>(4);
    assert_eq!(run.samples.len(), 0);
    assert_eq!(run.failed_iterations, 4);
}

#[test]
fn key_generation_cannot_fail() {
    let run = bench_keygen::<Broken>(8);
    assert_eq!(run.samples.len(), 8);
    assert_eq!(run.failed_iterations, 0);
}

#[test]
fn any_scheme_runs_by_operation_name() {
    let run = run_operation::<Disagreeing>("encaps", 3).unwrap();
    assert_eq!(run.samples.len(), 3);
    let run = run_operation::<Disagreeing>("full_handshake", 3).unwrap();
    assert_eq!(run.failed_iterations, 3);
    let error = run_operation::<Disagreeing>("", 3).unwrap_err();
    assert_eq!(error, AppError::InvalidOperation(String::new()));
}
