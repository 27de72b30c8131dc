//! Timing an operation over a number of iterations.
//!
//! Iterations run one after another on the calling thread. An iteration
//! whose operation reports a failure is counted and leaves no sample; the
//! run goes on with the next.

use vstd::prelude::*;
use std::time::Instant;
use crate::clock::elapsed_micros;

verus! {

/// The outcome of one sampling run.
#[derive(Debug)]
pub struct SampleRun {
    /// Elapsed whole microseconds of each iteration that succeeded, in order.
    pub samples: Vec<u64>,
    /// Iterations whose operation failed.
    pub failed_iterations: u32,
}

impl SampleRun {
    /// The run accounts for `iterations` iterations: each left a sample or
    /// was counted as failed.
    pub open spec fn covers(self, iterations: u32) -> bool {
        self.samples@.len() + self.failed_iterations == iterations
    }

    /// A run in which each of `iterations` iterations failed.
    pub fn all_failed(iterations: u32) -> (run: SampleRun)
        ensures
            run.covers(iterations),
            run.samples@.len() == 0,
            run.failed_iterations == iterations,
    {
        SampleRun { samples: Vec::new(), failed_iterations: iterations }
    }
}

/// Runs `op` `iterations` times and times each call. `op` returns whether it
/// succeeded. An operation that cannot fail leaves exactly `iterations`
/// samples; one that always fails leaves none.
pub fn sample<F: Fn() -> bool>(op: &F, iterations: u32) -> (run: SampleRun)
    requires
        call_requires(op, ()),
    ensures
        run.covers(iterations),
        (forall|ok: bool| call_ensures(op, (), ok) ==> ok) ==> run.failed_iterations == 0,
        (forall|ok: bool| call_ensures(op, (), ok) ==> !ok) ==> run.samples@.len() == 0,
{
    let mut samples: Vec<u64> = Vec::new();
    let mut failed: u32 = 0;
    let mut i: u32 = 0;
    while i < iterations
        invariant
            i <= iterations,
            samples@.len() + failed == i,
            call_requires(op, ()),
            (forall|ok: bool| call_ensures(op, (), ok) ==> ok) ==> failed == 0,
            (forall|ok: bool| call_ensures(op, (), ok) ==> !ok) ==> samples@.len() == 0,
        decreases iterations - i,
    {
        let start = Instant::now();
        let ok = op();
        let micros = elapsed_micros(&start);
        if ok {
            samples.push(micros);
        } else {
            failed = failed + 1;
        }
        i = i + 1;
    }
    SampleRun { samples, failed_iterations: failed }
}

} // verus!
