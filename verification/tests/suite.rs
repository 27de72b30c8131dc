use latency_bench::identity::{Circuit, KemOperation, ParamSet};
use latency_bench::suite::{suite_plan, OutputFormat, SuiteStep};

#[test]
fn csv_only_when_asked_for() {
    assert_eq!(OutputFormat::parse("csv"), OutputFormat::Csv);
    assert_eq!(OutputFormat::parse("json"), OutputFormat::Json);
    assert_eq!(OutputFormat::parse("CSV"), OutputFormat::Json);
    assert_eq!(OutputFormat::parse(""), OutputFormat::Json);
    assert_eq!(OutputFormat::parse("yaml"), OutputFormat::Json);
}

#[test]
fn suite_runs_the_whole_matrix() {
    let plan = suite_plan(100, 10);
    assert_eq!(plan.len(), 14);
    let mut expected = Vec::new();
    for param_set in [ParamSet::MlKem512, ParamSet::MlKem768, ParamSet::MlKem1024] {
        for operation in [
            KemOperation::Keygen,
            KemOperation::Encaps,
            KemOperation::Decaps,
            KemOperation::FullHandshake,
        ] {
            expected.push(SuiteStep::Kem { param_set, operation, iterations: 100 });
        }
    }
    expected.push(SuiteStep::ZkProve { circuit: Circuit::Multiply, iterations: 10 });
    expected.push(SuiteStep::ZkVerify { circuit: Circuit::Multiply, iterations: 100 });
    assert_eq!(plan, expected);
}

#[test]
fn suite_verifies_ten_times_as_often_as_it_proves() {
    let plan = suite_plan(1, 429_496_729);
    assert_eq!(
        plan[13],
        SuiteStep::ZkVerify { circuit: Circuit::Multiply, iterations: 4_294_967_290 }
    );
    let plan = suite_plan(0, 0);
    assert_eq!(plan[12], SuiteStep::ZkProve { circuit: Circuit::Multiply, iterations: 0 });
    assert_eq!(plan[13], SuiteStep::ZkVerify { circuit: Circuit::Multiply, iterations: 0 });
}
