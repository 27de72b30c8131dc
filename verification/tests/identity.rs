use latency_bench::health::health;
use latency_bench::identity::{
    AppError, Circuit, Family, KemOperation, ParamSet, Service, BAD_REQUEST,
};

#[test]
fn kem_iterations_are_clamped_not_rejected() {
    let family = Family::KeyEncapsulation;
    assert_eq!(family.clamp_iterations(0), 1);
    assert_eq!(family.clamp_iterations(-1), 1);
    assert_eq!(family.clamp_iterations(i64::MIN), 1);
    assert_eq!(family.clamp_iterations(50_000), 10_000);
    assert_eq!(family.clamp_iterations(i64::MAX), 10_000);
    assert_eq!(family.clamp_iterations(1), 1);
    assert_eq!(family.clamp_iterations(10_000), 10_000);
    assert_eq!(family.clamp_iterations(10_001), 10_000);
    assert_eq!(family.clamp_iterations(777), 777);
}

#[test]
fn proof_iterations_are_clamped_to_their_own_limits() {
    assert_eq!(Family::ProofGeneration.clamp_iterations(0), 1);
    assert_eq!(Family::ProofGeneration.clamp_iterations(1000), 1000);
    assert_eq!(Family::ProofGeneration.clamp_iterations(1001), 1000);
    assert_eq!(Family::ProofVerification.clamp_iterations(-3), 1);
    assert_eq!(Family::ProofVerification.clamp_iterations(5000), 5000);
    assert_eq!(Family::ProofVerification.clamp_iterations(6000), 5000);
}

#[test]
fn family_limits() {
    assert_eq!(Family::KeyEncapsulation.max_iterations(), 10_000);
    assert_eq!(Family::ProofGeneration.max_iterations(), 1000);
    assert_eq!(Family::ProofVerification.max_iterations(), 5000);
}

#[test]
fn family_endpoints() {
    assert_eq!(Family::KeyEncapsulation.path(), "/kem_bench");
    assert_eq!(Family::ProofGeneration.path(), "/zk_prove_bench");
    assert_eq!(Family::ProofVerification.path(), "/zk_verify_bench");
    assert_eq!(
        Family::KeyEncapsulation.endpoint("http://localhost:8000"),
        "http://localhost:8000/kem_bench"
    );
    assert_eq!(
        Family::ProofVerification.endpoint("http://localhost:8001"),
        "http://localhost:8001/zk_verify_bench"
    );
    assert_eq!(Family::KeyEncapsulation.service(), Service::Lattice);
    assert_eq!(Family::ProofGeneration.service(), Service::Zk);
    assert_eq!(Family::ProofVerification.service(), Service::Zk);
}

#[test]
fn param_sets_by_name() {
    assert_eq!(ParamSet::parse("ml_kem_512"), Some(ParamSet::MlKem512));
    assert_eq!(ParamSet::parse("ml_kem_768"), Some(ParamSet::MlKem768));
    assert_eq!(ParamSet::parse("ml_kem_1024"), Some(ParamSet::MlKem1024));
    assert_eq!(ParamSet::parse("ml_kem_999"), None);
    assert_eq!(ParamSet::parse("ml_kem_767"), None);
    assert_eq!(ParamSet::parse("ML_KEM_512"), None);
    assert_eq!(ParamSet::parse(""), None);
    for p in [ParamSet::MlKem512, ParamSet::MlKem768, ParamSet::MlKem1024] {
        assert_eq!(ParamSet::parse(p.name()), Some(p));
    }
}

#[test]
fn operations_by_name() {
    assert_eq!(KemOperation::parse("keygen"), Some(KemOperation::Keygen));
    assert_eq!(KemOperation::parse("encaps"), Some(KemOperation::Encaps));
    assert_eq!(KemOperation::parse("decaps"), Some(KemOperation::Decaps));
    assert_eq!(KemOperation::parse("full_handshake"), Some(KemOperation::FullHandshake));
    assert_eq!(KemOperation::parse("handshake"), None);
    assert_eq!(KemOperation::parse("keygen "), None);
}

#[test]
fn circuits_by_name() {
    assert_eq!(Circuit::parse("multiply"), Some(Circuit::Multiply));
    assert_eq!(Circuit::parse("cube_root"), None);
    assert_eq!(Circuit::Multiply.name(), "multiply");
}

#[test]
fn unknown_param_set_message_enumerates_the_valid_ones() {
    let error = AppError::InvalidParamSet("ml_kem_999".to_string());
    let message = error.message();
    assert!(message.contains("ml_kem_512"));
    assert!(message.contains("ml_kem_768"));
    assert!(message.contains("ml_kem_1024"));
    assert!(message.contains("param_set"));
    assert!(message.contains("ml_kem_999"));
    assert_eq!(
        message,
        "Invalid param_set 'ml_kem_999'. Valid options: ml_kem_512, ml_kem_768, ml_kem_1024"
    );
    assert_eq!(error.status_code(), 400);
    assert_eq!(BAD_REQUEST, 400);
}

#[test]
fn unknown_operation_message() {
    let error = AppError::InvalidOperation("sign".to_string());
    assert_eq!(
        error.message(),
        "Invalid operation 'sign'. Valid options: keygen, encaps, decaps, full_handshake"
    );
    assert_eq!(error.field(), "operation");
    assert_eq!(error.value(), "sign");
    assert_eq!(error.options(), "keygen, encaps, decaps, full_handshake");
    assert_eq!(error.status_code(), 400);
}

#[test]
fn unknown_circuit_message() {
    let error = AppError::InvalidCircuit("cube_root".to_string());
    assert_eq!(error.message(), "Invalid circuit_id 'cube_root'. Valid options: multiply");
    assert_eq!(error.field(), "circuit_id");
    assert_eq!(error.status_code(), 400);
}

#[test]
fn health_names_the_service() {
    let lattice = health(Service::Lattice);
    assert_eq!(lattice.status, "healthy");
    assert_eq!(lattice.service, "lattice_service");
    assert!(lattice.timestamp > 1_600_000_000);
    let zk = health(Service::Zk);
    assert_eq!(zk.status, "healthy");
    assert_eq!(zk.service, "zk_service");
}
