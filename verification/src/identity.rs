//! What a measurement request may name: the operation family with its
//! iteration bounds, the parameter sets, the operations and the circuits;
//! and the error a request gets that names anything else.

use vstd::prelude::*;
use vstd::string::StringExecFns;
use crate::text::same_text;

verus! {

/// The three families of timed operations.
#[derive(Clone, Copy, Debug, PartialEq, Eq, Structural)]
pub enum Family {
    KeyEncapsulation,
    ProofGeneration,
    ProofVerification,
}

/// The two services.
#[derive(Clone, Copy, Debug, PartialEq, Eq, Structural)]
pub enum Service {
    Lattice,
    Zk,
}

impl Service {
    /// The name under which the service reports itself.
    pub open spec fn name_of(self) -> Seq<char> {
        match self {
            Service::Lattice => "lattice_service"@,
            Service::Zk => "zk_service"@,
        }
    }

    /// The name under which the service reports itself.
    pub fn name(self) -> (name: &'static str)
        ensures
            name@ == self.name_of(),
    {
        match self {
            Service::Lattice => "lattice_service",
            Service::Zk => "zk_service",
        }
    }
}

/// `requested` brought into the range from 1 to `limit`.
pub open spec fn clamped(requested: int, limit: int) -> int {
    if requested < 1 {
        1
    } else if requested > limit {
        limit
    } else {
        requested
    }
}

impl Family {
    /// The most iterations one request of this family may run.
    pub open spec fn limit(self) -> u32 {
        match self {
            Family::KeyEncapsulation => 10000,
            Family::ProofGeneration => 1000,
            Family::ProofVerification => 5000,
        }
    }

    /// The service that measures this family.
    pub open spec fn service_of(self) -> Service {
        match self {
            Family::KeyEncapsulation => Service::Lattice,
            Family::ProofGeneration => Service::Zk,
            Family::ProofVerification => Service::Zk,
        }
    }

    /// The path of the family's measurement endpoint.
    pub open spec fn path_of(self) -> Seq<char> {
        match self {
            Family::KeyEncapsulation => "/kem_bench"@,
            Family::ProofGeneration => "/zk_prove_bench"@,
            Family::ProofVerification => "/zk_verify_bench"@,
        }
    }

    /// The service that measures this family.
    pub fn service(self) -> (service: Service)
        ensures
            service == self.service_of(),
    {
        match self {
            Family::KeyEncapsulation => Service::Lattice,
            Family::ProofGeneration => Service::Zk,
            Family::ProofVerification => Service::Zk,
        }
    }

    /// The path of the family's measurement endpoint.
    pub fn path(self) -> (path: &'static str)
        ensures
            path@ == self.path_of(),
    {
        match self {
            Family::KeyEncapsulation => "/kem_bench",
            Family::ProofGeneration => "/zk_prove_bench",
            Family::ProofVerification => "/zk_verify_bench",
        }
    }

    /// The address of the family's measurement endpoint at a service
    /// reached under `url`.
    pub fn endpoint(self, url: &str) -> (endpoint: String)
        ensures
            endpoint@ == url@ + self.path_of(),
    {
        String::from_str(url).concat(self.path())
    }

    /// The most iterations one request of this family may run.
    pub fn max_iterations(self) -> (limit: u32)
        ensures
            limit == self.limit(),
    {
        match self {
            Family::KeyEncapsulation => 10000,
            Family::ProofGeneration => 1000,
            Family::ProofVerification => 5000,
        }
    }

    /// The iterations a request for `requested` iterations runs: counts
    /// below one run one iteration, counts above the family's limit run the
    /// limit. No count is rejected.
    pub fn clamp_iterations(self, requested: i64) -> (iterations: u32)
        ensures
            iterations == clamped(requested as int, self.limit() as int),
            1 <= iterations <= self.limit(),
            1 <= requested <= self.limit() ==> iterations == requested,
    {
        let limit = self.max_iterations();
        if requested < 1 {
            1
        } else if requested > limit as i64 {
            limit
        } else {
            requested as u32
        }
    }
}

/// The parameter sets of the key-encapsulation service.
#[derive(Clone, Copy, Debug, PartialEq, Eq, Structural)]
pub enum ParamSet {
    MlKem512,
    MlKem768,
    MlKem1024,
}

impl ParamSet {
    /// The name of the parameter set on the wire.
    pub open spec fn name_of(self) -> Seq<char> {
        match self {
            ParamSet::MlKem512 => "ml_kem_512"@,
            ParamSet::MlKem768 => "ml_kem_768"@,
            ParamSet::MlKem1024 => "ml_kem_1024"@,
        }
    }

    /// The parameter set that `name` names, if any.
    pub open spec fn named(name: Seq<char>) -> Option<ParamSet> {
        if name == ParamSet::MlKem512.name_of() {
            Some(ParamSet::MlKem512)
        } else if name == ParamSet::MlKem768.name_of() {
            Some(ParamSet::MlKem768)
        } else if name == ParamSet::MlKem1024.name_of() {
            Some(ParamSet::MlKem1024)
        } else {
            None
        }
    }

    /// The valid names as they appear in an error message.
    pub open spec fn options() -> Seq<char> {
        ParamSet::MlKem512.name_of() + ", "@ + ParamSet::MlKem768.name_of() + ", "@
            + ParamSet::MlKem1024.name_of()
    }

    /// The name of the parameter set on the wire.
    pub fn name(self) -> (name: &'static str)
        ensures
            name@ == self.name_of(),
    {
        match self {
            ParamSet::MlKem512 => "ml_kem_512",
            ParamSet::MlKem768 => "ml_kem_768",
            ParamSet::MlKem1024 => "ml_kem_1024",
        }
    }

    /// The parameter set that `name` names, if any.
    pub fn parse(name: &str) -> (found: Option<ParamSet>)
        ensures
            found == ParamSet::named(name@),
    {
        if same_text(name, ParamSet::MlKem512.name()) {
            Some(ParamSet::MlKem512)
        } else if same_text(name, ParamSet::MlKem768.name()) {
            Some(ParamSet::MlKem768)
        } else if same_text(name, ParamSet::MlKem1024.name()) {
            Some(ParamSet::MlKem1024)
        } else {
            None
        }
    }
}

/// The operations of the key-encapsulation service.
#[derive(Clone, Copy, Debug, PartialEq, Eq, Structural)]
pub enum KemOperation {
    Keygen,
    Encaps,
    Decaps,
    FullHandshake,
}

impl KemOperation {
    /// The name of the operation on the wire.
    pub open spec fn name_of(self) -> Seq<char> {
        match self {
            KemOperation::Keygen => "keygen"@,
            KemOperation::Encaps => "encaps"@,
            KemOperation::Decaps => "decaps"@,
            KemOperation::FullHandshake => "full_handshake"@,
        }
    }

    /// The operation that `name` names, if any.
    pub open spec fn named(name: Seq<char>) -> Option<KemOperation> {
        if name == KemOperation::Keygen.name_of() {
            Some(KemOperation::Keygen)
        } else if name == KemOperation::Encaps.name_of() {
            Some(KemOperation::Encaps)
        } else if name == KemOperation::Decaps.name_of() {
            Some(KemOperation::Decaps)
        } else if name == KemOperation::FullHandshake.name_of() {
            Some(KemOperation::FullHandshake)
        } else {
            None
        }
    }

    /// The valid names as they appear in an error message.
    pub open spec fn options() -> Seq<char> {
        KemOperation::Keygen.name_of() + ", "@ + KemOperation::Encaps.name_of() + ", "@
            + KemOperation::Decaps.name_of() + ", "@ + KemOperation::FullHandshake.name_of()
    }

    /// The name of the operation on the wire.
    pub fn name(self) -> (name: &'static str)
        ensures
            name@ == self.name_of(),
    {
        match self {
            KemOperation::Keygen => "keygen",
            KemOperation::Encaps => "encaps",
            KemOperation::Decaps => "decaps",
            KemOperation::FullHandshake => "full_handshake",
        }
    }

    /// The operation that `name` names, if any.
    pub fn parse(name: &str) -> (found: Option<KemOperation>)
        ensures
            found == KemOperation::named(name@),
    {
        if same_text(name, KemOperation::Keygen.name()) {
            Some(KemOperation::Keygen)
        } else if same_text(name, KemOperation::Encaps.name()) {
            Some(KemOperation::Encaps)
        } else if same_text(name, KemOperation::Decaps.name()) {
            Some(KemOperation::Decaps)
        } else if same_text(name, KemOperation::FullHandshake.name()) {
            Some(KemOperation::FullHandshake)
        } else {
            None
        }
    }
}

/// The circuits of the proving service.
#[derive(Clone, Copy, Debug, PartialEq, Eq, Structural)]
pub enum Circuit {
    /// Knowledge of two factors of a public product.
    Multiply,
}

impl Circuit {
    /// The name of the circuit on the wire.
    pub open spec fn name_of(self) -> Seq<char> {
        match self {
            Circuit::Multiply => "multiply"@,
        }
    }

    /// The circuit that `name` names, if any.
    pub open spec fn named(name: Seq<char>) -> Option<Circuit> {
        if name == Circuit::Multiply.name_of() {
            Some(Circuit::Multiply)
        } else {
            None
        }
    }

    /// The valid names as they appear in an error message.
    pub open spec fn options() -> Seq<char> {
        Circuit::Multiply.name_of()
    }

    /// The name of the circuit on the wire.
    pub fn name(self) -> (name: &'static str)
        ensures
            name@ == self.name_of(),
    {
        match self {
            Circuit::Multiply => "multiply",
        }
    }

    /// The circuit that `name` names, if any.
    pub fn parse(name: &str) -> (found: Option<Circuit>)
        ensures
            found == Circuit::named(name@),
    {
        if same_text(name, Circuit::Multiply.name()) {
            Some(Circuit::Multiply)
        } else {
            None
        }
    }
}

/// Every parameter set is found again by its name.
pub proof fn lemma_param_set_names_distinct(param_set: ParamSet)
    ensures
        ParamSet::named(param_set.name_of()) == Some(param_set),
{
    reveal_strlit("ml_kem_512");
    reveal_strlit("ml_kem_768");
    reveal_strlit("ml_kem_1024");
    assert("ml_kem_512"@[7] != "ml_kem_768"@[7]);
}

/// Every operation is found again by its name.
pub proof fn lemma_operation_names_distinct(operation: KemOperation)
    ensures
        KemOperation::named(operation.name_of()) == Some(operation),
{
    reveal_strlit("keygen");
    reveal_strlit("encaps");
    reveal_strlit("decaps");
    reveal_strlit("full_handshake");
    assert("keygen"@[0] != "decaps"@[0]);
    assert("encaps"@[0] != "decaps"@[0]);
}

/// Every circuit is found again by its name.
pub proof fn lemma_circuit_names_distinct(circuit: Circuit)
    ensures
        Circuit::named(circuit.name_of()) == Some(circuit),
{
}

/// Why a request was turned down. Each variant carries the value that the
/// request gave.
#[derive(Debug, PartialEq, Eq)]
pub enum AppError {
    InvalidParamSet(String),
    InvalidOperation(String),
    InvalidCircuit(String),
}

/// The status of every response to a request that was turned down: bad
/// request.
pub const BAD_REQUEST: u16 = 400;

impl AppError {
    /// The field of the request that held the invalid value.
    pub open spec fn field_of(self) -> Seq<char> {
        match self {
            AppError::InvalidParamSet(_) => "param_set"@,
            AppError::InvalidOperation(_) => "operation"@,
            AppError::InvalidCircuit(_) => "circuit_id"@,
        }
    }

    /// The invalid value.
    pub open spec fn value_of(self) -> Seq<char> {
        match self {
            AppError::InvalidParamSet(value) => value@,
            AppError::InvalidOperation(value) => value@,
            AppError::InvalidCircuit(value) => value@,
        }
    }

    /// The values that the field accepts.
    pub open spec fn options_of(self) -> Seq<char> {
        match self {
            AppError::InvalidParamSet(_) => ParamSet::options(),
            AppError::InvalidOperation(_) => KemOperation::options(),
            AppError::InvalidCircuit(_) => Circuit::options(),
        }
    }

    /// The message of the error: the field, the value it held, and the
    /// values it accepts.
    pub open spec fn message_of(self) -> Seq<char> {
        "Invalid "@ + self.field_of() + " '"@ + self.value_of() + "'. Valid options: "@
            + self.options_of()
    }

    /// The HTTP status of the response that carries this error.
    pub fn status_code(&self) -> (status: u16)
        ensures
            status == BAD_REQUEST,
    {
        BAD_REQUEST
    }

    /// The field of the request that held the invalid value.
    pub fn field(&self) -> (field: &'static str)
        ensures
            field@ == self.field_of(),
    {
        match self {
            AppError::InvalidParamSet(_) => "param_set",
            AppError::InvalidOperation(_) => "operation",
            AppError::InvalidCircuit(_) => "circuit_id",
        }
    }

    /// The invalid value.
    pub fn value(&self) -> (value: &str)
        ensures
            value@ == self.value_of(),
    {
        match self {
            AppError::InvalidParamSet(value) => value.as_str(),
            AppError::InvalidOperation(value) => value.as_str(),
            AppError::InvalidCircuit(value) => value.as_str(),
        }
    }

    /// The values that the field accepts, separated by commas.
    pub fn options(&self) -> (options: String)
        ensures
            options@ == self.options_of(),
    {
        match self {
            AppError::InvalidParamSet(_) => {
                let text = String::from_str(ParamSet::MlKem512.name());
                let text = text.concat(", ").concat(ParamSet::MlKem768.name());
                text.concat(", ").concat(ParamSet::MlKem1024.name())
            },
            AppError::InvalidOperation(_) => {
                let text = String::from_str(KemOperation::Keygen.name());
                let text = text.concat(", ").concat(KemOperation::Encaps.name());
                let text = text.concat(", ").concat(KemOperation::Decaps.name());
                text.concat(", ").concat(KemOperation::FullHandshake.name())
            },
            AppError::InvalidCircuit(_) => String::from_str(Circuit::Multiply.name()),
        }
    }

    /// The message of the error: the field, the value it held, and the
    /// values it accepts.
    pub fn message(&self) -> (message: String)
        ensures
            message@ == self.message_of(),
    {
        let options = self.options();
        let text = String::from_str("Invalid ").concat(self.field());
        let text = text.concat(" '").concat(self.value());
        text.concat("'. Valid options: ").concat(options.as_str())
    }
}

} // verus!
