//! What the client's command line decides: the output format and the steps
//! of the full suite.

use vstd::prelude::*;
use crate::identity::{Circuit, KemOperation, ParamSet};
use crate::text::same_text;

verus! {

/// How the results are written out.
#[derive(Clone, Copy, Debug, PartialEq, Eq, Structural)]
pub enum OutputFormat {
    /// One pretty-printed JSON array.
    Json,
    /// One CSV record per result, under a header.
    Csv,
}

impl OutputFormat {
    /// The format that `name` asks for: CSV for `csv`, JSON for anything
    /// else.
    pub open spec fn named(name: Seq<char>) -> OutputFormat {
        if name == "csv"@ {
            OutputFormat::Csv
        } else {
            OutputFormat::Json
        }
    }

    /// The format that `name` asks for.
    pub fn parse(name: &str) -> (format: OutputFormat)
        ensures
            format == OutputFormat::named(name@),
    {
        if same_text(name, "csv") {
            OutputFormat::Csv
        } else {
            OutputFormat::Json
        }
    }
}

/// Verifications per request for each proof per request in the suite.
pub const VERIFY_PER_PROVE: u32 = 10;

/// One batch of the suite. Each is a single request, with nothing else in
/// flight.
#[derive(Clone, Copy, Debug, PartialEq, Eq, Structural)]
pub enum SuiteStep {
    Kem { param_set: ParamSet, operation: KemOperation, iterations: u32 },
    ZkProve { circuit: Circuit, iterations: u32 },
    ZkVerify { circuit: Circuit, iterations: u32 },
}

/// The four operations of one parameter set, in wire order.
pub open spec fn kem_steps_of(param_set: ParamSet, iterations: u32) -> Seq<SuiteStep> {
    seq![
        SuiteStep::Kem { param_set, operation: KemOperation::Keygen, iterations },
        SuiteStep::Kem { param_set, operation: KemOperation::Encaps, iterations },
        SuiteStep::Kem { param_set, operation: KemOperation::Decaps, iterations },
        SuiteStep::Kem { param_set, operation: KemOperation::FullHandshake, iterations },
    ]
}

/// Proof generation and then verification of one circuit; verification
/// runs ten times the iterations of generation.
pub open spec fn zk_steps_of(circuit: Circuit, iterations: u32) -> Seq<SuiteStep> {
    seq![
        SuiteStep::ZkProve { circuit, iterations },
        SuiteStep::ZkVerify { circuit, iterations: (iterations * VERIFY_PER_PROVE) as u32 },
    ]
}

/// The full suite: every operation of every parameter set, then proof
/// generation and verification of every circuit.
pub open spec fn suite_of(kem_iterations: u32, zk_iterations: u32) -> Seq<SuiteStep> {
    kem_steps_of(ParamSet::MlKem512, kem_iterations) + kem_steps_of(
        ParamSet::MlKem768,
        kem_iterations,
    ) + kem_steps_of(ParamSet::MlKem1024, kem_iterations) + zk_steps_of(
        Circuit::Multiply,
        zk_iterations,
    )
}

/// Appends the four operations of one parameter set.
fn push_kem_steps(plan: &mut Vec<SuiteStep>, param_set: ParamSet, iterations: u32)
    ensures
        final(plan)@ == old(plan)@ + kem_steps_of(param_set, iterations),
{
    plan.push(SuiteStep::Kem { param_set, operation: KemOperation::Keygen, iterations });
    plan.push(SuiteStep::Kem { param_set, operation: KemOperation::Encaps, iterations });
    plan.push(SuiteStep::Kem { param_set, operation: KemOperation::Decaps, iterations });
    plan.push(SuiteStep::Kem { param_set, operation: KemOperation::FullHandshake, iterations });
}

/// The steps of the full suite, in the order they run.
pub fn suite_plan(kem_iterations: u32, zk_iterations: u32) -> (plan: Vec<SuiteStep>)
    requires
        zk_iterations * VERIFY_PER_PROVE <= u32::MAX,
    ensures
        plan@ == suite_of(kem_iterations, zk_iterations),
        plan@.len() == 14,
{
    let mut plan: Vec<SuiteStep> = Vec::new();
    push_kem_steps(&mut plan, ParamSet::MlKem512, kem_iterations);
    push_kem_steps(&mut plan, ParamSet::MlKem768, kem_iterations);
    push_kem_steps(&mut plan, ParamSet::MlKem1024, kem_iterations);
    plan.push(SuiteStep::ZkProve { circuit: Circuit::Multiply, iterations: zk_iterations });
    plan.push(
        SuiteStep::ZkVerify {
            circuit: Circuit::Multiply,
            iterations: zk_iterations * VERIFY_PER_PROVE,
        },
    );
    plan
}

} // verus!
