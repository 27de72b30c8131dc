use latency_bench::identity::{AppError, Circuit, Family};
use latency_bench::ratio::Ratio;
use latency_bench::sampler::SampleRun;
use latency_bench::stats::Stats;
use latency_bench::zk::{
    accepted, bench_prove_multiply, bench_verify_multiply, compute_stats, multiply_witness, to_millis,
    validate, zk_prove_bench, zk_prove_response, zk_verify_bench, zk_verify_response, MillisStats,
    ProveRun, ZkBenchRequest, ZkPlan,
};
use std::cell::{Cell, RefCell};
use std::time::{Duration, Instant};

fn request(circuit_id: &str, iterations: u32) -> ZkBenchRequest {
    ZkBenchRequest { circuit_id: circuit_id.to_string(), iterations }
}

fn zero() -> Ratio {
    Ratio { num: 0, den: 1 }
}

#[test]
fn statistics_are_reported_in_milliseconds() {
    let stats = compute_stats(&vec![3000, 1000, 2000]);
    assert_eq!(stats.avg_ms, Ratio { num: 6000, den: 3000 });
    assert_eq!(stats.min_ms, Ratio { num: 1000, den: 1000 });
    assert_eq!(stats.max_ms, Ratio { num: 3000, den: 1000 });
    assert_eq!(stats.p95_ms, Ratio { num: 3000, den: 1000 });
    assert_eq!(stats.throughput, Ratio { num: 3_000_000, den: 6000 });
    assert_eq!(stats.avg_ms.num as f64 / stats.avg_ms.den as f64, 2.0);
    assert_eq!(stats.throughput.num as f64 / stats.throughput.den as f64, 500.0);
}

#[test]
fn statistics_of_the_empty_run_are_zero() {
    let stats = compute_stats(&Vec::new());
    assert_eq!(stats.avg_ms.num, 0);
    assert_eq!(stats.min_ms.num, 0);
    assert_eq!(stats.max_ms.num, 0);
    assert_eq!(stats.p95_ms.num, 0);
    assert_eq!(stats.throughput, zero());
    assert!(stats.avg_ms.den > 0 && stats.min_ms.den > 0);
}

#[test]
fn microseconds_to_milliseconds() {
    let stats = Stats {
        avg: Ratio { num: 7, den: 2 },
        min: 1,
        max: 9,
        p95: 8,
        throughput: Ratio { num: 2_000_000, den: 7 },
    };
    assert_eq!(
        to_millis(stats),
        MillisStats {
            avg_ms: Ratio { num: 7, den: 2000 },
            min_ms: Ratio { num: 1, den: 1000 },
            max_ms: Ratio { num: 9, den: 1000 },
            p95_ms: Ratio { num: 8, den: 1000 },
            throughput: Ratio { num: 2_000_000, den: 7 },
        }
    );
}

#[test]
fn witnesses_start_at_three_and_seven() {
    assert_eq!(multiply_witness(0), (3, 7));
    assert_eq!(multiply_witness(1), (4, 8));
    assert_eq!(multiply_witness(999), (1002, 1006));
    assert_eq!(multiply_witness(u32::MAX), (u32::MAX as u64 + 3, u32::MAX as u64 + 7));
}

#[test]
fn prove_run_hands_out_the_witnesses_in_order() {
    let made: RefCell<Vec<(u64, u64)>> = RefCell::new(Vec::new());
    let proved: RefCell<Vec<u64>> = RefCell::new(Vec::new());
    let out = bench_prove_multiply(
        &|a: u64, b: u64| {
            made.borrow_mut().push((a, b));
            a * b
        },
        &|product: u64| {
            proved.borrow_mut().push(product);
            Some(product)
        },
        &|_proof: &u64| 128usize,
        4,
    );
    assert_eq!(*made.borrow(), vec![(3, 7), (4, 8), (5, 9), (6, 10)]);
    assert_eq!(*proved.borrow(), vec![21, 32, 45, 60]);
    assert_eq!(out.run.samples.len(), 4);
    assert_eq!(out.run.failed_iterations, 0);
    assert_eq!(out.proof_size, 128);
}

#[test]
fn prove_run_counts_failures_and_keeps_the_first_size() {
    let measured = Cell::new(0u32);
    let out = bench_prove_multiply(
        &|a: u64, _b: u64| a,
        &|a: u64| if a % 2 == 1 { None } else { Some(a as usize * 100) },
        &|proof: &usize| {
            measured.set(measured.get() + 1);
            *proof
        },
        5,
    );
    // factors a = 3, 4, 5, 6, 7: proofs for 4 and 6
    assert_eq!(out.run.samples.len(), 2);
    assert_eq!(out.run.failed_iterations, 3);
    assert_eq!(out.proof_size, 400);
    assert_eq!(measured.get(), 1);
}

#[test]
fn proofs_are_measured_until_one_has_a_size() {
    let measured = Cell::new(0u32);
    let out = bench_prove_multiply(
        &|a: u64, _b: u64| a,
        &|a: u64| Some(a),
        &|proof: &u64| {
            measured.set(measured.get() + 1);
            if *proof < 5 {
                0
            } else {
                *proof as usize
            }
        },
        6,
    );
    // factors a = 3, 4, 5, ...: the third proof is the first with a size
    assert_eq!(out.proof_size, 5);
    assert_eq!(measured.get(), 3);
    assert_eq!(out.run.samples.len(), 6);
}

#[test]
fn prove_run_without_a_proof_has_no_size() {
    let measured = Cell::new(0u32);
    let out = bench_prove_multiply(
        &|_a: u64, _b: u64| (),
        &|_circuit: ()| None::<u8>,
        &|_proof: &u8| {
            measured.set(measured.get() + 1);
            1usize
        },
        3,
    );
    assert_eq!(out.run.samples.len(), 0);
    assert_eq!(out.run.failed_iterations, 3);
    assert_eq!(out.proof_size, 0);
    assert_eq!(measured.get(), 0);
}

#[test]
fn only_proving_is_timed() {
    let spin = |micros: u64| {
        let start = Instant::now();
        while start.elapsed() < Duration::from_micros(micros) {}
    };
    let out = bench_prove_multiply(
        &|_a: u64, _b: u64| spin(100_000),
        &|_circuit: ()| {
            spin(1000);
            Some(())
        },
        &|_proof: &()| {
            spin(100_000);
            64usize
        },
        3,
    );
    assert_eq!(out.run.samples.len(), 3);
    for micros in &out.run.samples {
        assert!(*micros >= 1000);
        assert!(*micros < 100_000);
    }
}

#[test]
fn verify_run_sets_up_once() {
    let setups = Cell::new(0u32);
    let checks = Cell::new(0u32);
    let run = bench_verify_multiply(
        &|| {
            setups.set(setups.get() + 1);
            Some(21u64)
        },
        &|job: &u64| {
            checks.set(checks.get() + 1);
            Some(*job == 21)
        },
        6,
    );
    assert_eq!(setups.get(), 1);
    assert_eq!(checks.get(), 6);
    assert_eq!(run.samples.len(), 6);
    assert_eq!(run.failed_iterations, 0);
}

#[test]
fn rejected_proofs_and_errors_are_failed_iterations() {
    let calls = Cell::new(0u32);
    let run = bench_verify_multiply(
        &|| Some(()),
        &|_job: &()| {
            calls.set(calls.get() + 1);
            match calls.get() % 3 {
                0 => None,
                1 => Some(false),
                _ => Some(true),
            }
        },
        9,
    );
    assert_eq!(run.samples.len(), 3);
    assert_eq!(run.failed_iterations, 6);
}

#[test]
fn failed_setup_fails_every_iteration() {
    let checks = Cell::new(0u32);
    let run = bench_verify_multiply(
        &|| None::<u8>,
        &|_job: &u8| {
            checks.set(checks.get() + 1);
            Some(true)
        },
        8,
    );
    assert_eq!(checks.get(), 0);
    assert_eq!(run.samples.len(), 0);
    assert_eq!(run.failed_iterations, 8);
}

#[test]
fn unknown_circuit_is_a_bad_request_and_nothing_is_proved() {
    let calls = Cell::new(0u32);
    let outcome = zk_prove_bench(
        request("cube_root", 10),
        &|_a: u64, _b: u64| calls.set(calls.get() + 1),
        &|_circuit: ()| {
            calls.set(calls.get() + 1);
            Some(())
        },
        &|_proof: &()| {
            calls.set(calls.get() + 1);
            1usize
        },
    );
    let error = outcome.unwrap_err();
    assert_eq!(error, AppError::InvalidCircuit("cube_root".to_string()));
    assert_eq!(error.status_code(), 400);
    assert!(error.message().contains("multiply"));
    assert_eq!(calls.get(), 0);
}

#[test]
fn unknown_circuit_is_a_bad_request_and_nothing_is_verified() {
    let calls = Cell::new(0u32);
    let outcome = zk_verify_bench(
        request("", 10),
        &|| {
            calls.set(calls.get() + 1);
            Some(())
        },
        &|_job: &()| {
            calls.set(calls.get() + 1);
            Some(true)
        },
    );
    assert_eq!(outcome, Err(AppError::InvalidCircuit(String::new())));
    assert_eq!(calls.get(), 0);
}

#[test]
fn prove_iterations_are_clamped() {
    let calls = Cell::new(0u32);
    let make = |a: u64, b: u64| (a, b);
    let prove = |_circuit: (u64, u64)| {
        calls.set(calls.get() + 1);
        Some(())
    };
    let size = |_proof: &()| 128usize;
    let response = zk_prove_bench(request("multiply", 50_000), &make, &prove, &size).unwrap();
    assert_eq!(response.iterations, 1000);
    assert_eq!(calls.get(), 1000);
    assert_eq!(response.avg_prove_ms.den, 1_000_000);
    assert_eq!(response.avg_proof_size_bytes, 128);
    assert_eq!(response.circuit_id, "multiply");
    calls.set(0);
    let response = zk_prove_bench(request("multiply", 0), &make, &prove, &size).unwrap();
    assert_eq!(response.iterations, 1);
    assert_eq!(calls.get(), 1);
}

#[test]
fn verify_iterations_are_clamped() {
    let calls = Cell::new(0u32);
    let setup = || Some(5u8);
    let verify = |_job: &u8| {
        calls.set(calls.get() + 1);
        Some(true)
    };
    let response = zk_verify_bench(request("multiply", 6000), &setup, &verify).unwrap();
    assert_eq!(response.iterations, 5000);
    assert_eq!(calls.get(), 5000);
    assert_eq!(response.failed_iterations, 0);
    calls.set(0);
    let response = zk_verify_bench(request("multiply", 0), &setup, &verify).unwrap();
    assert_eq!(response.iterations, 1);
    assert_eq!(calls.get(), 1);
    assert!(response.timestamp > 1_577_836_800);
}

#[test]
fn prove_response_reports_the_run() {
    let out = ProveRun {
        run: SampleRun { samples: vec![4000, 2000], failed_iterations: 1 },
        proof_size: 128,
    };
    let response = zk_prove_response(request("multiply", 3), 3, &out, 1_700_000_000);
    assert_eq!(response.circuit_id, "multiply");
    assert_eq!(response.iterations, 3);
    assert_eq!(response.avg_prove_ms, Ratio { num: 6000, den: 2000 });
    assert_eq!(response.min_prove_ms, Ratio { num: 2000, den: 1000 });
    assert_eq!(response.max_prove_ms, Ratio { num: 4000, den: 1000 });
    assert_eq!(response.p95_prove_ms, Ratio { num: 4000, den: 1000 });
    assert_eq!(response.throughput_proofs_sec, Ratio { num: 2_000_000, den: 6000 });
    assert_eq!(response.avg_proof_size_bytes, 128);
    assert_eq!(response.failed_iterations, 1);
    assert_eq!(response.timestamp, 1_700_000_000);
}

#[test]
fn verify_response_reports_the_run() {
    let run = SampleRun { samples: vec![500], failed_iterations: 0 };
    let response = zk_verify_response(request("multiply", 1), 1, &run, 12);
    assert_eq!(response.circuit_id, "multiply");
    assert_eq!(response.iterations, 1);
    assert_eq!(response.avg_verify_ms, Ratio { num: 500, den: 1000 });
    assert_eq!(response.min_verify_ms, Ratio { num: 500, den: 1000 });
    assert_eq!(response.max_verify_ms, Ratio { num: 500, den: 1000 });
    assert_eq!(response.p95_verify_ms, Ratio { num: 500, den: 1000 });
    assert_eq!(response.throughput_verifies_sec, Ratio { num: 1_000_000, den: 500 });
    assert_eq!(response.failed_iterations, 0);
    assert_eq!(response.timestamp, 12);
}

#[test]
fn requests_are_planned_within_the_limit_of_their_family() {
    let prove = Family::ProofGeneration;
    let verify = Family::ProofVerification;
    assert_eq!(
        validate(&request("multiply", 50_000), prove),
        Ok(ZkPlan { circuit: Circuit::Multiply, iterations: 1000 })
    );
    assert_eq!(
        validate(&request("multiply", 50_000), verify),
        Ok(ZkPlan { circuit: Circuit::Multiply, iterations: 5000 })
    );
    assert_eq!(validate(&request("multiply", 0), prove).unwrap().iterations, 1);
    assert_eq!(validate(&request("multiply", 0), verify).unwrap().iterations, 1);
    assert_eq!(validate(&request("multiply", 1000), prove).unwrap().iterations, 1000);
    assert_eq!(validate(&request("multiply", 1001), verify).unwrap().iterations, 1001);
    assert_eq!(
        validate(&request("cube_root", 10), prove),
        Err(AppError::InvalidCircuit("cube_root".to_string()))
    );
}

#[test]
fn only_an_accepted_proof_is_a_success() {
    assert!(accepted(Some(true)));
    assert!(!accepted(Some(false)));
    assert!(!accepted(None));
}

#[test]
fn a_size_of_zero_is_still_a_measured_size() {
    let measured = Cell::new(0u32);
    let out = bench_prove_multiply(
        &|a: u64, b: u64| (a, b),
        &|_circuit: (u64, u64)| Some(()),
        &|_proof: &()| {
            measured.set(measured.get() + 1);
            0usize
        },
        3,
    );
    assert_eq!(out.run.samples.len(), 3);
    assert_eq!(out.proof_size, 0);
    assert_eq!(measured.get(), 3);
}

#[test]
fn endpoint_counts_failures_of_the_operation() {
    let response = zk_verify_bench(request("multiply", 4), &|| None::<u8>, &|_job: &u8| {
        Some(true)
    })
    .unwrap();
    assert_eq!(response.iterations, 4);
    assert_eq!(response.failed_iterations, 4);
    assert_eq!(response.avg_verify_ms.num, 0);
    let response = zk_verify_bench(request("multiply", 4), &|| Some(1u8), &|_job: &u8| {
        Some(false)
    })
    .unwrap();
    assert_eq!(response.failed_iterations, 4);
    let response = zk_prove_bench(
        request("multiply", 4),
        &|a: u64, b: u64| a * b,
        &|_circuit: u64| None::<u8>,
        &|_proof: &u8| 1usize,
    )
    .unwrap();
    assert_eq!(response.failed_iterations, 4);
    assert_eq!(response.avg_proof_size_bytes, 0);
}
