//! The protocol's entry points: for each operation of the catalog, the
//! registration of its circuit, the dispatch of a request and the callback
//! that takes the result.

use vstd::prelude::*;
use crate::catalog::{output_widths, ArgumentSlotType, OperationKind, OutputFieldType, ScalarWidth};
use crate::dispatcher::{
    dispatch, dispatch_next, dispatch_result, lemma_operands_decide, scalar_of, viewed,
    DispatchError, EncryptedScalar, Submission,
};
use crate::events::{
    ciphertexts_of, decodes_to, encodes_nonce, field_types, nonce_to_bytes, CompletionEvent,
};
use crate::events::{
    AbsDiffEvent, AddEvent, AndEvent, AverageEvent, CreditScoreEvent, DivideEvent, EqualEvent,
    GreaterEqualEvent, GreaterThanEvent, HealthRiskEvent, IfElseEvent, InRangeEvent,
    LessEqualEvent, LessThanEvent, MaxEvent, MedianEvent, MeetsThresholdEvent, MinEvent,
    ModuloEvent, MultiplyEvent, NotEvent, OrEvent, PowerEvent, SubtractEvent, SumEvent,
    VoteTallyEvent, WeightedAverageEvent, XorEvent,
};
use crate::ledger::{CorrelationLedger, Outcome};
use crate::registry::{
    register_next, register_result, registry_valid, CircuitReferenceView,
    ExternalCircuitReference, OperationRegistry, RegistryError,
};
use crate::router::{
    outcome_of, route, route_next, route_result, ComputationResult, Delivery, ResultView,
    RouteError,
};
use crate::slot::SlotKey;

verus! {

/// Everything that the protocol keeps between calls: the registered
/// definitions and the ledger of correlation identifiers.
pub struct ProtocolState {
    pub registry: OperationRegistry,
    pub ledger: CorrelationLedger,
}

impl ProtocolState {
    /// The registry and the ledger are well formed.
    pub open spec fn wf(&self) -> bool {
        self.registry.wf() && self.ledger.wf()
    }

    /// A state with no definition registered and no request dispatched.
    pub fn new() -> (state: ProtocolState)
        ensures
            state.wf(),
            state.registry@ == Map::<SlotKey, crate::registry::DefinitionView>::empty(),
            state.ledger@ == Map::<(OperationKind, u64), crate::ledger::RequestState>::empty(),
    {
        ProtocolState { registry: OperationRegistry::new(), ledger: CorrelationLedger::new() }
    }
}

/// The errors that a callback reports to the program's caller.
#[derive(Clone, Copy, Debug, PartialEq, Eq, Structural)]
pub enum ErrorCode {
    /// The computation was aborted.
    AbortedComputation,
    /// The execution environment has no cluster set.
    ClusterNotSet,
}

/// The text that goes with an error code.
pub open spec fn message_of(code: ErrorCode) -> Seq<char> {
    match code {
        ErrorCode::AbortedComputation => "The computation was aborted"@,
        ErrorCode::ClusterNotSet => "Cluster not set"@,
    }
}

impl ErrorCode {
    /// The text that goes with the error code.
    pub fn message(self) -> (text: &'static str)
        ensures
            text@ == message_of(self),
    {
        match self {
            ErrorCode::AbortedComputation => "The computation was aborted",
            ErrorCode::ClusterNotSet => "Cluster not set",
        }
    }
}

impl<E> Delivery<E> {
    /// The delivery as a callback reports it: the record, or
    /// `AbortedComputation`.
    pub fn into_result(self) -> (result: Result<E, ErrorCode>)
        ensures
            match self {
                Delivery::Completed(event) => result == Ok::<E, ErrorCode>(event),
                Delivery::Aborted => result == Err::<E, ErrorCode>(ErrorCode::AbortedComputation),
            },
    {
        match self {
            Delivery::Completed(event) => Ok(event),
            Delivery::Aborted => Err(ErrorCode::AbortedComputation),
        }
    }
}

/// What a registration through an entry point answers and leaves behind:
/// the answer and the registry are those of registering the operation with
/// the circuit, and the ledger is untouched.
pub open spec fn registration_of(
    before: ProtocolState,
    after: ProtocolState,
    kind: OperationKind,
    circuit_ref: CircuitReferenceView,
    result: Result<(), RegistryError>,
) -> bool {
    &&& after.wf()
    &&& result == register_result(before.registry@, kind, circuit_ref)
    &&& after.registry@ == register_next(before.registry@, kind, circuit_ref)
    &&& registry_valid(before.registry@) ==> registry_valid(after.registry@)
    &&& after.ledger@ == before.ledger@
}

/// What a dispatch through an entry point answers and leaves behind: the
/// answer and the ledger are those of dispatching the operands for the
/// operation, and the registry is untouched.
pub open spec fn dispatch_of(
    before: ProtocolState,
    after: ProtocolState,
    kind: OperationKind,
    computation_offset: u64,
    pub_key: [u8; 32],
    nonce: u128,
    operands: Seq<EncryptedScalar>,
    result: Result<Submission, DispatchError>,
) -> bool {
    &&& after.wf()
    &&& after.registry@ == before.registry@
    &&& viewed(result) == dispatch_result(
        before.registry@,
        before.ledger@,
        kind,
        computation_offset,
        pub_key,
        nonce,
        operands,
    )
    &&& after.ledger@ == dispatch_next(
        before.registry@,
        before.ledger@,
        kind,
        computation_offset,
        pub_key,
        nonce,
        operands,
    )
}

/// What a callback through an entry point answers and leaves behind: the
/// outcome and the ledger are those of routing the output for the operation,
/// and the registry is untouched.
pub open spec fn delivery_of(
    before: ProtocolState,
    after: ProtocolState,
    kind: OperationKind,
    computation_offset: u64,
    definition_ref: SlotKey,
    output: ResultView,
    outcome: Result<Outcome, RouteError>,
) -> bool {
    &&& after.wf()
    &&& after.registry@ == before.registry@
    &&& outcome == route_result(
        before.registry@,
        before.ledger@,
        computation_offset,
        kind,
        definition_ref,
        output,
    )
    &&& after.ledger@ == route_next(
        before.registry@,
        before.ledger@,
        computation_offset,
        kind,
        definition_ref,
        output,
    )
}

/// Where the compiled circuit of an operation is published.
pub open spec fn circuit_source_of(kind: OperationKind) -> Seq<char> {
    match kind {
        OperationKind::Add => "https://brown-immense-amphibian-214.mypinata.cloud/ipfs/bafybeibt3652jfgchqftay6cfytbiibxqujxqm3vmvy4d2kgfzubboo3qq/devnet/add_devnet.arcis"@,
        OperationKind::Subtract => "https://brown-immense-amphibian-214.mypinata.cloud/ipfs/bafybeibt3652jfgchqftay6cfytbiibxqujxqm3vmvy4d2kgfzubboo3qq/devnet/subtract_devnet.arcis"@,
        OperationKind::Multiply => "https://brown-immense-amphibian-214.mypinata.cloud/ipfs/bafybeibt3652jfgchqftay6cfytbiibxqujxqm3vmvy4d2kgfzubboo3qq/devnet/multiply_devnet.arcis"@,
        OperationKind::Divide => "https://brown-immense-amphibian-214.mypinata.cloud/ipfs/bafybeibt3652jfgchqftay6cfytbiibxqujxqm3vmvy4d2kgfzubboo3qq/devnet/divide_devnet.arcis"@,
        OperationKind::Modulo => "https://brown-immense-amphibian-214.mypinata.cloud/ipfs/bafybeibt3652jfgchqftay6cfytbiibxqujxqm3vmvy4d2kgfzubboo3qq/devnet/modulo_devnet.arcis"@,
        OperationKind::AbsDiff => "https://brown-immense-amphibian-214.mypinata.cloud/ipfs/bafybeibt3652jfgchqftay6cfytbiibxqujxqm3vmvy4d2kgfzubboo3qq/devnet/abs_diff_devnet.arcis"@,
        OperationKind::Power => "https://brown-immense-amphibian-214.mypinata.cloud/ipfs/bafybeibt3652jfgchqftay6cfytbiibxqujxqm3vmvy4d2kgfzubboo3qq/devnet/power_devnet.arcis"@,
        OperationKind::GreaterThan => "https://brown-immense-amphibian-214.mypinata.cloud/ipfs/bafybeibt3652jfgchqftay6cfytbiibxqujxqm3vmvy4d2kgfzubboo3qq/devnet/greater_than_devnet.arcis"@,
        OperationKind::LessThan => "https://brown-immense-amphibian-214.mypinata.cloud/ipfs/bafybeibt3652jfgchqftay6cfytbiibxqujxqm3vmvy4d2kgfzubboo3qq/devnet/less_than_devnet.arcis"@,
        OperationKind::Equal => "https://brown-immense-amphibian-214.mypinata.cloud/ipfs/bafybeibt3652jfgchqftay6cfytbiibxqujxqm3vmvy4d2kgfzubboo3qq/devnet/equal_devnet.arcis"@,
        OperationKind::GreaterEqual => "https://brown-immense-amphibian-214.mypinata.cloud/ipfs/bafybeibt3652jfgchqftay6cfytbiibxqujxqm3vmvy4d2kgfzubboo3qq/devnet/greater_equal_devnet.arcis"@,
        OperationKind::LessEqual => "https://brown-immense-amphibian-214.mypinata.cloud/ipfs/bafybeibt3652jfgchqftay6cfytbiibxqujxqm3vmvy4d2kgfzubboo3qq/devnet/less_equal_devnet.arcis"@,
        OperationKind::MeetsThreshold => "https://brown-immense-amphibian-214.mypinata.cloud/ipfs/bafybeibt3652jfgchqftay6cfytbiibxqujxqm3vmvy4d2kgfzubboo3qq/devnet/meets_threshold_devnet.arcis"@,
        OperationKind::InRange => "https://brown-immense-amphibian-214.mypinata.cloud/ipfs/bafybeibt3652jfgchqftay6cfytbiibxqujxqm3vmvy4d2kgfzubboo3qq/devnet/in_range_devnet.arcis"@,
        OperationKind::And => "https://brown-immense-amphibian-214.mypinata.cloud/ipfs/bafybeibt3652jfgchqftay6cfytbiibxqujxqm3vmvy4d2kgfzubboo3qq/devnet/and_devnet.arcis"@,
        OperationKind::Or => "https://brown-immense-amphibian-214.mypinata.cloud/ipfs/bafybeibt3652jfgchqftay6cfytbiibxqujxqm3vmvy4d2kgfzubboo3qq/devnet/or_devnet.arcis"@,
        OperationKind::Xor => "https://brown-immense-amphibian-214.mypinata.cloud/ipfs/bafybeibt3652jfgchqftay6cfytbiibxqujxqm3vmvy4d2kgfzubboo3qq/devnet/xor_devnet.arcis"@,
        OperationKind::Not => "https://brown-immense-amphibian-214.mypinata.cloud/ipfs/bafybeibt3652jfgchqftay6cfytbiibxqujxqm3vmvy4d2kgfzubboo3qq/devnet/not_devnet.arcis"@,
        OperationKind::IfElse => "https://brown-immense-amphibian-214.mypinata.cloud/ipfs/bafybeibt3652jfgchqftay6cfytbiibxqujxqm3vmvy4d2kgfzubboo3qq/devnet/if_else_devnet.arcis"@,
        OperationKind::VoteTally => "https://brown-immense-amphibian-214.mypinata.cloud/ipfs/bafybeibt3652jfgchqftay6cfytbiibxqujxqm3vmvy4d2kgfzubboo3qq/devnet/vote_tally_devnet.arcis"@,
        OperationKind::Average => "https://brown-immense-amphibian-214.mypinata.cloud/ipfs/bafybeibt3652jfgchqftay6cfytbiibxqujxqm3vmvy4d2kgfzubboo3qq/devnet/average_devnet.arcis"@,
        OperationKind::Sum => "https://brown-immense-amphibian-214.mypinata.cloud/ipfs/bafybeibt3652jfgchqftay6cfytbiibxqujxqm3vmvy4d2kgfzubboo3qq/devnet/sum_devnet.arcis"@,
        OperationKind::Min => "https://brown-immense-amphibian-214.mypinata.cloud/ipfs/bafybeibt3652jfgchqftay6cfytbiibxqujxqm3vmvy4d2kgfzubboo3qq/devnet/min_devnet.arcis"@,
        OperationKind::Max => "https://brown-immense-amphibian-214.mypinata.cloud/ipfs/bafybeibt3652jfgchqftay6cfytbiibxqujxqm3vmvy4d2kgfzubboo3qq/devnet/max_devnet.arcis"@,
        OperationKind::Median => "https://brown-immense-amphibian-214.mypinata.cloud/ipfs/bafybeibt3652jfgchqftay6cfytbiibxqujxqm3vmvy4d2kgfzubboo3qq/devnet/median_devnet.arcis"@,
        OperationKind::WeightedAverage => "https://brown-immense-amphibian-214.mypinata.cloud/ipfs/bafybeibt3652jfgchqftay6cfytbiibxqujxqm3vmvy4d2kgfzubboo3qq/devnet/weighted_average_devnet.arcis"@,
        OperationKind::CreditScore => "https://brown-immense-amphibian-214.mypinata.cloud/ipfs/bafybeibt3652jfgchqftay6cfytbiibxqujxqm3vmvy4d2kgfzubboo3qq/devnet/credit_score_devnet.arcis"@,
        OperationKind::HealthRisk => "https://brown-immense-amphibian-214.mypinata.cloud/ipfs/bafybeibt3652jfgchqftay6cfytbiibxqujxqm3vmvy4d2kgfzubboo3qq/devnet/health_risk_devnet.arcis"@,
    }
}

/// Where the compiled circuit of an operation is published.
pub fn circuit_source(kind: OperationKind) -> (source: &'static str)
    ensures
        source@ == circuit_source_of(kind),
{
    match kind {
        OperationKind::Add => "https://brown-immense-amphibian-214.mypinata.cloud/ipfs/bafybeibt3652jfgchqftay6cfytbiibxqujxqm3vmvy4d2kgfzubboo3qq/devnet/add_devnet.arcis",
        OperationKind::Subtract => "https://brown-immense-amphibian-214.mypinata.cloud/ipfs/bafybeibt3652jfgchqftay6cfytbiibxqujxqm3vmvy4d2kgfzubboo3qq/devnet/subtract_devnet.arcis",
        OperationKind::Multiply => "https://brown-immense-amphibian-214.mypinata.cloud/ipfs/bafybeibt3652jfgchqftay6cfytbiibxqujxqm3vmvy4d2kgfzubboo3qq/devnet/multiply_devnet.arcis",
        OperationKind::Divide => "https://brown-immense-amphibian-214.mypinata.cloud/ipfs/bafybeibt3652jfgchqftay6cfytbiibxqujxqm3vmvy4d2kgfzubboo3qq/devnet/divide_devnet.arcis",
        OperationKind::Modulo => "https://brown-immense-amphibian-214.mypinata.cloud/ipfs/bafybeibt3652jfgchqftay6cfytbiibxqujxqm3vmvy4d2kgfzubboo3qq/devnet/modulo_devnet.arcis",
        OperationKind::AbsDiff => "https://brown-immense-amphibian-214.mypinata.cloud/ipfs/bafybeibt3652jfgchqftay6cfytbiibxqujxqm3vmvy4d2kgfzubboo3qq/devnet/abs_diff_devnet.arcis",
        OperationKind::Power => "https://brown-immense-amphibian-214.mypinata.cloud/ipfs/bafybeibt3652jfgchqftay6cfytbiibxqujxqm3vmvy4d2kgfzubboo3qq/devnet/power_devnet.arcis",
        OperationKind::GreaterThan => "https://brown-immense-amphibian-214.mypinata.cloud/ipfs/bafybeibt3652jfgchqftay6cfytbiibxqujxqm3vmvy4d2kgfzubboo3qq/devnet/greater_than_devnet.arcis",
        OperationKind::LessThan => "https://brown-immense-amphibian-214.mypinata.cloud/ipfs/bafybeibt3652jfgchqftay6cfytbiibxqujxqm3vmvy4d2kgfzubboo3qq/devnet/less_than_devnet.arcis",
        OperationKind::Equal => "https://brown-immense-amphibian-214.mypinata.cloud/ipfs/bafybeibt3652jfgchqftay6cfytbiibxqujxqm3vmvy4d2kgfzubboo3qq/devnet/equal_devnet.arcis",
        OperationKind::GreaterEqual => "https://brown-immense-amphibian-214.mypinata.cloud/ipfs/bafybeibt3652jfgchqftay6cfytbiibxqujxqm3vmvy4d2kgfzubboo3qq/devnet/greater_equal_devnet.arcis",
        OperationKind::LessEqual => "https://brown-immense-amphibian-214.mypinata.cloud/ipfs/bafybeibt3652jfgchqftay6cfytbiibxqujxqm3vmvy4d2kgfzubboo3qq/devnet/less_equal_devnet.arcis",
        OperationKind::MeetsThreshold => "https://brown-immense-amphibian-214.mypinata.cloud/ipfs/bafybeibt3652jfgchqftay6cfytbiibxqujxqm3vmvy4d2kgfzubboo3qq/devnet/meets_threshold_devnet.arcis",
        OperationKind::InRange => "https://brown-immense-amphibian-214.mypinata.cloud/ipfs/bafybeibt3652jfgchqftay6cfytbiibxqujxqm3vmvy4d2kgfzubboo3qq/devnet/in_range_devnet.arcis",
        OperationKind::And => "https://brown-immense-amphibian-214.mypinata.cloud/ipfs/bafybeibt3652jfgchqftay6cfytbiibxqujxqm3vmvy4d2kgfzubboo3qq/devnet/and_devnet.arcis",
        OperationKind::Or => "https://brown-immense-amphibian-214.mypinata.cloud/ipfs/bafybeibt3652jfgchqftay6cfytbiibxqujxqm3vmvy4d2kgfzubboo3qq/devnet/or_devnet.arcis",
        OperationKind::Xor => "https://brown-immense-amphibian-214.mypinata.cloud/ipfs/bafybeibt3652jfgchqftay6cfytbiibxqujxqm3vmvy4d2kgfzubboo3qq/devnet/xor_devnet.arcis",
        OperationKind::Not => "https://brown-immense-amphibian-214.mypinata.cloud/ipfs/bafybeibt3652jfgchqftay6cfytbiibxqujxqm3vmvy4d2kgfzubboo3qq/devnet/not_devnet.arcis",
        OperationKind::IfElse => "https://brown-immense-amphibian-214.mypinata.cloud/ipfs/bafybeibt3652jfgchqftay6cfytbiibxqujxqm3vmvy4d2kgfzubboo3qq/devnet/if_else_devnet.arcis",
        OperationKind::VoteTally => "https://brown-immense-amphibian-214.mypinata.cloud/ipfs/bafybeibt3652jfgchqftay6cfytbiibxqujxqm3vmvy4d2kgfzubboo3qq/devnet/vote_tally_devnet.arcis",
        OperationKind::Average => "https://brown-immense-amphibian-214.mypinata.cloud/ipfs/bafybeibt3652jfgchqftay6cfytbiibxqujxqm3vmvy4d2kgfzubboo3qq/devnet/average_devnet.arcis",
        OperationKind::Sum => "https://brown-immense-amphibian-214.mypinata.cloud/ipfs/bafybeibt3652jfgchqftay6cfytbiibxqujxqm3vmvy4d2kgfzubboo3qq/devnet/sum_devnet.arcis",
        OperationKind::Min => "https://brown-immense-amphibian-214.mypinata.cloud/ipfs/bafybeibt3652jfgchqftay6cfytbiibxqujxqm3vmvy4d2kgfzubboo3qq/devnet/min_devnet.arcis",
        OperationKind::Max => "https://brown-immense-amphibian-214.mypinata.cloud/ipfs/bafybeibt3652jfgchqftay6cfytbiibxqujxqm3vmvy4d2kgfzubboo3qq/devnet/max_devnet.arcis",
        OperationKind::Median => "https://brown-immense-amphibian-214.mypinata.cloud/ipfs/bafybeibt3652jfgchqftay6cfytbiibxqujxqm3vmvy4d2kgfzubboo3qq/devnet/median_devnet.arcis",
        OperationKind::WeightedAverage => "https://brown-immense-amphibian-214.mypinata.cloud/ipfs/bafybeibt3652jfgchqftay6cfytbiibxqujxqm3vmvy4d2kgfzubboo3qq/devnet/weighted_average_devnet.arcis",
        OperationKind::CreditScore => "https://brown-immense-amphibian-214.mypinata.cloud/ipfs/bafybeibt3652jfgchqftay6cfytbiibxqujxqm3vmvy4d2kgfzubboo3qq/devnet/credit_score_devnet.arcis",
        OperationKind::HealthRisk => "https://brown-immense-amphibian-214.mypinata.cloud/ipfs/bafybeibt3652jfgchqftay6cfytbiibxqujxqm3vmvy4d2kgfzubboo3qq/devnet/health_risk_devnet.arcis",
    }
}

/// The reference to a circuit that is fetched from outside the ledger.
pub open spec fn offchain_reference(
    source: Seq<char>,
    hash: Seq<u8>,
    parameters: Seq<ArgumentSlotType>,
    outputs: Seq<OutputFieldType>,
) -> CircuitReferenceView {
    CircuitReferenceView { source, hash, parameters, outputs }
}

/// The digest that the operations are registered with: thirty-two zero
/// bytes.
pub open spec fn unchecked_hash() -> Seq<u8> {
    Seq::new(32, |i: int| 0u8)
}

/// The reference with which an operation is registered: its published
/// circuit, the zero digest, and the signature that the circuit declares.
pub open spec fn published_reference(
    kind: OperationKind,
    parameters: Seq<ArgumentSlotType>,
    outputs: Seq<OutputFieldType>,
) -> CircuitReferenceView {
    offchain_reference(circuit_source_of(kind), unchecked_hash(), parameters, outputs)
}

/// Registers an operation with a circuit that is fetched from `source` and
/// vouched for by `hash`, and that declares the given parameters and outputs.
pub fn init_offchain_comp_def(
    state: &mut ProtocolState,
    kind: OperationKind,
    source: &str,
    hash: [u8; 32],
    parameters: Vec<ArgumentSlotType>,
    outputs: Vec<OutputFieldType>,
) -> (result: Result<(), RegistryError>)
    requires
        old(state).wf(),
    ensures
        registration_of(
            *old(state),
            *final(state),
            kind,
            offchain_reference(source@, hash@, parameters@, outputs@),
            result,
        ),
{
    let circuit_ref = ExternalCircuitReference {
        source: source.to_owned(),
        hash,
        parameters,
        outputs,
    };
    state.registry.register(kind, circuit_ref)
}

/// Registers an operation with its published circuit.
fn init_published(
    state: &mut ProtocolState,
    kind: OperationKind,
    parameters: Vec<ArgumentSlotType>,
    outputs: Vec<OutputFieldType>,
) -> (result: Result<(), RegistryError>)
    requires
        old(state).wf(),
    ensures
        registration_of(
            *old(state),
            *final(state),
            kind,
            published_reference(kind, parameters@, outputs@),
            result,
        ),
{
    let hash = [0u8; 32];
    assert(hash@ =~= unchecked_hash());
    init_offchain_comp_def(state, kind, circuit_source(kind), hash, parameters, outputs)
}

/// Dispatches a request whose operands have the widths of the operation's
/// encrypted inputs.
fn dispatch_operands(
    state: &mut ProtocolState,
    kind: OperationKind,
    computation_offset: u64,
    pub_key: [u8; 32],
    nonce: u128,
    operands: Vec<EncryptedScalar>,
) -> (result: Result<Submission, DispatchError>)
    requires
        old(state).wf(),
    ensures
        dispatch_of(
            *old(state),
            *final(state),
            kind,
            computation_offset,
            pub_key,
            nonce,
            operands@,
            result,
        ),
{
    dispatch(
        &state.registry,
        &mut state.ledger,
        kind,
        computation_offset,
        pub_key,
        nonce,
        &operands,
    )
}

/// Routes the result of an operation that returns one field, and hands back
/// the field's ciphertext and the nonce bytes.
fn route_single(
    state: &mut ProtocolState,
    kind: OperationKind,
    computation_offset: u64,
    definition_ref: SlotKey,
    output: &ComputationResult,
) -> (delivery: Result<Delivery<([u8; 32], [u8; 16])>, RouteError>)
    requires
        old(state).wf(),
        output_widths(kind).len() == 1,
    ensures
        delivery_of(
            *old(state),
            *final(state),
            kind,
            computation_offset,
            definition_ref,
            output@,
            outcome_of(delivery),
        ),
        delivery matches Ok(Delivery::Completed(record)) ==> {
            &&& ciphertexts_of(output@->output_fields) == seq![record.0]
            &&& encodes_nonce(record.1, output@->result_nonce)
        },
{
    match route(
        &state.registry,
        &mut state.ledger,
        computation_offset,
        kind,
        definition_ref,
        output,
    ) {
        Err(error) => Err(error),
        Ok(_) => {
            match output {
                ComputationResult::Success { output_fields, result_nonce } => {
                    assert(output_fields@.len() == field_types(output_fields@).len());
                    let field = output_fields[0].ciphertext;
                    assert(ciphertexts_of(output_fields@) =~= seq![field]);
                    Ok(Delivery::Completed((field, nonce_to_bytes(*result_nonce))))
                },
                ComputationResult::Aborted => Ok(Delivery::Aborted),
            }
        },
    }
}

/// Routes the result of an operation that returns two fields, and hands back
/// the fields' ciphertexts, in order, and the nonce bytes.
fn route_double(
    state: &mut ProtocolState,
    kind: OperationKind,
    computation_offset: u64,
    definition_ref: SlotKey,
    output: &ComputationResult,
) -> (delivery: Result<Delivery<([u8; 32], [u8; 32], [u8; 16])>, RouteError>)
    requires
        old(state).wf(),
        output_widths(kind).len() == 2,
    ensures
        delivery_of(
            *old(state),
            *final(state),
            kind,
            computation_offset,
            definition_ref,
            output@,
            outcome_of(delivery),
        ),
        delivery matches Ok(Delivery::Completed(record)) ==> {
            &&& ciphertexts_of(output@->output_fields) == seq![record.0, record.1]
            &&& encodes_nonce(record.2, output@->result_nonce)
        },
{
    match route(
        &state.registry,
        &mut state.ledger,
        computation_offset,
        kind,
        definition_ref,
        output,
    ) {
        Err(error) => Err(error),
        Ok(_) => {
            match output {
                ComputationResult::Success { output_fields, result_nonce } => {
                    assert(output_fields@.len() == field_types(output_fields@).len());
                    let first = output_fields[0].ciphertext;
                    let second = output_fields[1].ciphertext;
                    assert(ciphertexts_of(output_fields@) =~= seq![first, second]);
                    Ok(Delivery::Completed((first, second, nonce_to_bytes(*result_nonce))))
                },
                ComputationResult::Aborted => Ok(Delivery::Aborted),
            }
        },
    }
}

/// Registers the `add` operation with its published circuit, which
/// declares the given parameters and outputs.
pub fn init_add_comp_def(
    state: &mut ProtocolState,
    parameters: Vec<ArgumentSlotType>,
    outputs: Vec<OutputFieldType>,
) -> (result: Result<(), RegistryError>)
    requires
        old(state).wf(),
    ensures
        registration_of(
            *old(state),
            *final(state),
            OperationKind::Add,
            published_reference(OperationKind::Add, parameters@, outputs@),
            result,
        ),
{
    init_published(state, OperationKind::Add, parameters, outputs)
}

/// Dispatches an `add` computation under the correlation identifier
/// `computation_offset`: the caller's key, the nonce, then the operands in
/// the order given. Never fails with `SchemaMismatch`.
pub fn add(
    state: &mut ProtocolState,
    computation_offset: u64,
    ciphertext_0: [u8; 32],
    ciphertext_1: [u8; 32],
    pub_key: [u8; 32],
    nonce: u128,
) -> (result: Result<Submission, DispatchError>)
    requires
        old(state).wf(),
    ensures
        dispatch_of(
            *old(state),
            *final(state),
            OperationKind::Add,
            computation_offset,
            pub_key,
            nonce,
            seq![
                scalar_of(ScalarWidth::Bits64, ciphertext_0),
                scalar_of(ScalarWidth::Bits64, ciphertext_1),
            ],
            result,
        ),
        !(result matches Err(DispatchError::SchemaMismatch)),
{
    let operands = vec![
        EncryptedScalar::new(ScalarWidth::Bits64, ciphertext_0),
        EncryptedScalar::new(ScalarWidth::Bits64, ciphertext_1),
    ];
    proof {
        assert(operands@ =~= seq![
            scalar_of(ScalarWidth::Bits64, ciphertext_0),
            scalar_of(ScalarWidth::Bits64, ciphertext_1),
        ]);
        lemma_operands_decide(OperationKind::Add, pub_key, nonce, operands@);
    }
    dispatch_operands(state, OperationKind::Add, computation_offset, pub_key, nonce, operands)
}

/// Takes the result of the `add` computation that was dispatched under
/// `computation_offset`. A delivered success comes back as the event to emit,
/// an abort as the abort signal.
pub fn add_callback(
    state: &mut ProtocolState,
    computation_offset: u64,
    definition_ref: SlotKey,
    output: &ComputationResult,
) -> (delivery: Result<Delivery<AddEvent>, RouteError>)
    requires
        old(state).wf(),
    ensures
        delivery_of(
            *old(state),
            *final(state),
            OperationKind::Add,
            computation_offset,
            definition_ref,
            output@,
            outcome_of(delivery),
        ),
        delivery matches Ok(Delivery::Completed(event)) ==> decodes_to(
            OperationKind::Add,
            output@->output_fields,
            output@->result_nonce,
            CompletionEvent::Add(event),
        ),
{
    let routed = route_single(
        state,
        OperationKind::Add,
        computation_offset,
        definition_ref,
        output,
    );
    match routed {
        Ok(Delivery::Completed((result, nonce))) => {
            Ok(Delivery::Completed(AddEvent { result, nonce }))
        },
        Ok(Delivery::Aborted) => Ok(Delivery::Aborted),
        Err(error) => Err(error),
    }
}

/// Registers the `subtract` operation with its published circuit, which
/// declares the given parameters and outputs.
pub fn init_subtract_comp_def(
    state: &mut ProtocolState,
    parameters: Vec<ArgumentSlotType>,
    outputs: Vec<OutputFieldType>,
) -> (result: Result<(), RegistryError>)
    requires
        old(state).wf(),
    ensures
        registration_of(
            *old(state),
            *final(state),
            OperationKind::Subtract,
            published_reference(OperationKind::Subtract, parameters@, outputs@),
            result,
        ),
{
    init_published(state, OperationKind::Subtract, parameters, outputs)
}

/// Dispatches a `subtract` computation under the correlation identifier
/// `computation_offset`: the caller's key, the nonce, then the operands in
/// the order given. Never fails with `SchemaMismatch`.
pub fn subtract(
    state: &mut ProtocolState,
    computation_offset: u64,
    ciphertext_0: [u8; 32],
    ciphertext_1: [u8; 32],
    pub_key: [u8; 32],
    nonce: u128,
) -> (result: Result<Submission, DispatchError>)
    requires
        old(state).wf(),
    ensures
        dispatch_of(
            *old(state),
            *final(state),
            OperationKind::Subtract,
            computation_offset,
            pub_key,
            nonce,
            seq![
                scalar_of(ScalarWidth::Bits64, ciphertext_0),
                scalar_of(ScalarWidth::Bits64, ciphertext_1),
            ],
            result,
        ),
        !(result matches Err(DispatchError::SchemaMismatch)),
{
    let operands = vec![
        EncryptedScalar::new(ScalarWidth::Bits64, ciphertext_0),
        EncryptedScalar::new(ScalarWidth::Bits64, ciphertext_1),
    ];
    proof {
        assert(operands@ =~= seq![
            scalar_of(ScalarWidth::Bits64, ciphertext_0),
            scalar_of(ScalarWidth::Bits64, ciphertext_1),
        ]);
        lemma_operands_decide(OperationKind::Subtract, pub_key, nonce, operands@);
    }
    dispatch_operands(state, OperationKind::Subtract, computation_offset, pub_key, nonce, operands)
}

/// Takes the result of the `subtract` computation that was dispatched under
/// `computation_offset`. A delivered success comes back as the event to emit,
/// an abort as the abort signal.
pub fn subtract_callback(
    state: &mut ProtocolState,
    computation_offset: u64,
    definition_ref: SlotKey,
    output: &ComputationResult,
) -> (delivery: Result<Delivery<SubtractEvent>, RouteError>)
    requires
        old(state).wf(),
    ensures
        delivery_of(
            *old(state),
            *final(state),
            OperationKind::Subtract,
            computation_offset,
            definition_ref,
            output@,
            outcome_of(delivery),
        ),
        delivery matches Ok(Delivery::Completed(event)) ==> decodes_to(
            OperationKind::Subtract,
            output@->output_fields,
            output@->result_nonce,
            CompletionEvent::Subtract(event),
        ),
{
    let routed = route_single(
        state,
        OperationKind::Subtract,
        computation_offset,
        definition_ref,
        output,
    );
    match routed {
        Ok(Delivery::Completed((result, nonce))) => {
            Ok(Delivery::Completed(SubtractEvent { result, nonce }))
        },
        Ok(Delivery::Aborted) => Ok(Delivery::Aborted),
        Err(error) => Err(error),
    }
}

/// Registers the `multiply` operation with its published circuit, which
/// declares the given parameters and outputs.
pub fn init_multiply_comp_def(
    state: &mut ProtocolState,
    parameters: Vec<ArgumentSlotType>,
    outputs: Vec<OutputFieldType>,
) -> (result: Result<(), RegistryError>)
    requires
        old(state).wf(),
    ensures
        registration_of(
            *old(state),
            *final(state),
            OperationKind::Multiply,
            published_reference(OperationKind::Multiply, parameters@, outputs@),
            result,
        ),
{
    init_published(state, OperationKind::Multiply, parameters, outputs)
}

/// Dispatches a `multiply` computation under the correlation identifier
/// `computation_offset`: the caller's key, the nonce, then the operands in
/// the order given. Never fails with `SchemaMismatch`.
pub fn multiply(
    state: &mut ProtocolState,
    computation_offset: u64,
    ciphertext_0: [u8; 32],
    ciphertext_1: [u8; 32],
    pub_key: [u8; 32],
    nonce: u128,
) -> (result: Result<Submission, DispatchError>)
    requires
        old(state).wf(),
    ensures
        dispatch_of(
            *old(state),
            *final(state),
            OperationKind::Multiply,
            computation_offset,
            pub_key,
            nonce,
            seq![
                scalar_of(ScalarWidth::Bits64, ciphertext_0),
                scalar_of(ScalarWidth::Bits64, ciphertext_1),
            ],
            result,
        ),
        !(result matches Err(DispatchError::SchemaMismatch)),
{
    let operands = vec![
        EncryptedScalar::new(ScalarWidth::Bits64, ciphertext_0),
        EncryptedScalar::new(ScalarWidth::Bits64, ciphertext_1),
    ];
    proof {
        assert(operands@ =~= seq![
            scalar_of(ScalarWidth::Bits64, ciphertext_0),
            scalar_of(ScalarWidth::Bits64, ciphertext_1),
        ]);
        lemma_operands_decide(OperationKind::Multiply, pub_key, nonce, operands@);
    }
    dispatch_operands(state, OperationKind::Multiply, computation_offset, pub_key, nonce, operands)
}

/// Takes the result of the `multiply` computation that was dispatched under
/// `computation_offset`. A delivered success comes back as the event to emit,
/// an abort as the abort signal.
pub fn multiply_callback(
    state: &mut ProtocolState,
    computation_offset: u64,
    definition_ref: SlotKey,
    output: &ComputationResult,
) -> (delivery: Result<Delivery<MultiplyEvent>, RouteError>)
    requires
        old(state).wf(),
    ensures
        delivery_of(
            *old(state),
            *final(state),
            OperationKind::Multiply,
            computation_offset,
            definition_ref,
            output@,
            outcome_of(delivery),
        ),
        delivery matches Ok(Delivery::Completed(event)) ==> decodes_to(
            OperationKind::Multiply,
            output@->output_fields,
            output@->result_nonce,
            CompletionEvent::Multiply(event),
        ),
{
    let routed = route_single(
        state,
        OperationKind::Multiply,
        computation_offset,
        definition_ref,
        output,
    );
    match routed {
        Ok(Delivery::Completed((result, nonce))) => {
            Ok(Delivery::Completed(MultiplyEvent { result, nonce }))
        },
        Ok(Delivery::Aborted) => Ok(Delivery::Aborted),
        Err(error) => Err(error),
    }
}

/// Registers the `divide` operation with its published circuit, which
/// declares the given parameters and outputs.
pub fn init_divide_comp_def(
    state: &mut ProtocolState,
    parameters: Vec<ArgumentSlotType>,
    outputs: Vec<OutputFieldType>,
) -> (result: Result<(), RegistryError>)
    requires
        old(state).wf(),
    ensures
        registration_of(
            *old(state),
            *final(state),
            OperationKind::Divide,
            published_reference(OperationKind::Divide, parameters@, outputs@),
            result,
        ),
{
    init_published(state, OperationKind::Divide, parameters, outputs)
}

/// Dispatches a `divide` computation under the correlation identifier
/// `computation_offset`: the caller's key, the nonce, then the operands in
/// the order given. Never fails with `SchemaMismatch`.
pub fn divide(
    state: &mut ProtocolState,
    computation_offset: u64,
    ciphertext_0: [u8; 32],
    ciphertext_1: [u8; 32],
    pub_key: [u8; 32],
    nonce: u128,
) -> (result: Result<Submission, DispatchError>)
    requires
        old(state).wf(),
    ensures
        dispatch_of(
            *old(state),
            *final(state),
            OperationKind::Divide,
            computation_offset,
            pub_key,
            nonce,
            seq![
                scalar_of(ScalarWidth::Bits64, ciphertext_0),
                scalar_of(ScalarWidth::Bits64, ciphertext_1),
            ],
            result,
        ),
        !(result matches Err(DispatchError::SchemaMismatch)),
{
    let operands = vec![
        EncryptedScalar::new(ScalarWidth::Bits64, ciphertext_0),
        EncryptedScalar::new(ScalarWidth::Bits64, ciphertext_1),
    ];
    proof {
        assert(operands@ =~= seq![
            scalar_of(ScalarWidth::Bits64, ciphertext_0),
            scalar_of(ScalarWidth::Bits64, ciphertext_1),
        ]);
        lemma_operands_decide(OperationKind::Divide, pub_key, nonce, operands@);
    }
    dispatch_operands(state, OperationKind::Divide, computation_offset, pub_key, nonce, operands)
}

/// Takes the result of the `divide` computation that was dispatched under
/// `computation_offset`. A delivered success comes back as the event to emit,
/// an abort as the abort signal.
pub fn divide_callback(
    state: &mut ProtocolState,
    computation_offset: u64,
    definition_ref: SlotKey,
    output: &ComputationResult,
) -> (delivery: Result<Delivery<DivideEvent>, RouteError>)
    requires
        old(state).wf(),
    ensures
        delivery_of(
            *old(state),
            *final(state),
            OperationKind::Divide,
            computation_offset,
            definition_ref,
            output@,
            outcome_of(delivery),
        ),
        delivery matches Ok(Delivery::Completed(event)) ==> decodes_to(
            OperationKind::Divide,
            output@->output_fields,
            output@->result_nonce,
            CompletionEvent::Divide(event),
        ),
{
    let routed = route_single(
        state,
        OperationKind::Divide,
        computation_offset,
        definition_ref,
        output,
    );
    match routed {
        Ok(Delivery::Completed((result, nonce))) => {
            Ok(Delivery::Completed(DivideEvent { result, nonce }))
        },
        Ok(Delivery::Aborted) => Ok(Delivery::Aborted),
        Err(error) => Err(error),
    }
}

/// Registers the `modulo` operation with its published circuit, which
/// declares the given parameters and outputs.
pub fn init_modulo_comp_def(
    state: &mut ProtocolState,
    parameters: Vec<ArgumentSlotType>,
    outputs: Vec<OutputFieldType>,
) -> (result: Result<(), RegistryError>)
    requires
        old(state).wf(),
    ensures
        registration_of(
            *old(state),
            *final(state),
            OperationKind::Modulo,
            published_reference(OperationKind::Modulo, parameters@, outputs@),
            result,
        ),
{
    init_published(state, OperationKind::Modulo, parameters, outputs)
}

/// Dispatches a `modulo` computation under the correlation identifier
/// `computation_offset`: the caller's key, the nonce, then the operands in
/// the order given. Never fails with `SchemaMismatch`.
pub fn modulo(
    state: &mut ProtocolState,
    computation_offset: u64,
    ciphertext_0: [u8; 32],
    ciphertext_1: [u8; 32],
    pub_key: [u8; 32],
    nonce: u128,
) -> (result: Result<Submission, DispatchError>)
    requires
        old(state).wf(),
    ensures
        dispatch_of(
            *old(state),
            *final(state),
            OperationKind::Modulo,
            computation_offset,
            pub_key,
            nonce,
            seq![
                scalar_of(ScalarWidth::Bits64, ciphertext_0),
                scalar_of(ScalarWidth::Bits64, ciphertext_1),
            ],
            result,
        ),
        !(result matches Err(DispatchError::SchemaMismatch)),
{
    let operands = vec![
        EncryptedScalar::new(ScalarWidth::Bits64, ciphertext_0),
        EncryptedScalar::new(ScalarWidth::Bits64, ciphertext_1),
    ];
    proof {
        assert(operands@ =~= seq![
            scalar_of(ScalarWidth::Bits64, ciphertext_0),
            scalar_of(ScalarWidth::Bits64, ciphertext_1),
        ]);
        lemma_operands_decide(OperationKind::Modulo, pub_key, nonce, operands@);
    }
    dispatch_operands(state, OperationKind::Modulo, computation_offset, pub_key, nonce, operands)
}

/// Takes the result of the `modulo` computation that was dispatched under
/// `computation_offset`. A delivered success comes back as the event to emit,
/// an abort as the abort signal.
pub fn modulo_callback(
    state: &mut ProtocolState,
    computation_offset: u64,
    definition_ref: SlotKey,
    output: &ComputationResult,
) -> (delivery: Result<Delivery<ModuloEvent>, RouteError>)
    requires
        old(state).wf(),
    ensures
        delivery_of(
            *old(state),
            *final(state),
            OperationKind::Modulo,
            computation_offset,
            definition_ref,
            output@,
            outcome_of(delivery),
        ),
        delivery matches Ok(Delivery::Completed(event)) ==> decodes_to(
            OperationKind::Modulo,
            output@->output_fields,
            output@->result_nonce,
            CompletionEvent::Modulo(event),
        ),
{
    let routed = route_single(
        state,
        OperationKind::Modulo,
        computation_offset,
        definition_ref,
        output,
    );
    match routed {
        Ok(Delivery::Completed((result, nonce))) => {
            Ok(Delivery::Completed(ModuloEvent { result, nonce }))
        },
        Ok(Delivery::Aborted) => Ok(Delivery::Aborted),
        Err(error) => Err(error),
    }
}

/// Registers the `abs_diff` operation with its published circuit, which
/// declares the given parameters and outputs.
pub fn init_abs_diff_comp_def(
    state: &mut ProtocolState,
    parameters: Vec<ArgumentSlotType>,
    outputs: Vec<OutputFieldType>,
) -> (result: Result<(), RegistryError>)
    requires
        old(state).wf(),
    ensures
        registration_of(
            *old(state),
            *final(state),
            OperationKind::AbsDiff,
            published_reference(OperationKind::AbsDiff, parameters@, outputs@),
            result,
        ),
{
    init_published(state, OperationKind::AbsDiff, parameters, outputs)
}

/// Dispatches an `abs_diff` computation under the correlation identifier
/// `computation_offset`: the caller's key, the nonce, then the operands in
/// the order given. Never fails with `SchemaMismatch`.
pub fn abs_diff(
    state: &mut ProtocolState,
    computation_offset: u64,
    ciphertext_0: [u8; 32],
    ciphertext_1: [u8; 32],
    pub_key: [u8; 32],
    nonce: u128,
) -> (result: Result<Submission, DispatchError>)
    requires
        old(state).wf(),
    ensures
        dispatch_of(
            *old(state),
            *final(state),
            OperationKind::AbsDiff,
            computation_offset,
            pub_key,
            nonce,
            seq![
                scalar_of(ScalarWidth::Bits64, ciphertext_0),
                scalar_of(ScalarWidth::Bits64, ciphertext_1),
            ],
            result,
        ),
        !(result matches Err(DispatchError::SchemaMismatch)),
{
    let operands = vec![
        EncryptedScalar::new(ScalarWidth::Bits64, ciphertext_0),
        EncryptedScalar::new(ScalarWidth::Bits64, ciphertext_1),
    ];
    proof {
        assert(operands@ =~= seq![
            scalar_of(ScalarWidth::Bits64, ciphertext_0),
            scalar_of(ScalarWidth::Bits64, ciphertext_1),
        ]);
        lemma_operands_decide(OperationKind::AbsDiff, pub_key, nonce, operands@);
    }
    dispatch_operands(state, OperationKind::AbsDiff, computation_offset, pub_key, nonce, operands)
}

/// Takes the result of the `abs_diff` computation that was dispatched under
/// `computation_offset`. A delivered success comes back as the event to emit,
/// an abort as the abort signal.
pub fn abs_diff_callback(
    state: &mut ProtocolState,
    computation_offset: u64,
    definition_ref: SlotKey,
    output: &ComputationResult,
) -> (delivery: Result<Delivery<AbsDiffEvent>, RouteError>)
    requires
        old(state).wf(),
    ensures
        delivery_of(
            *old(state),
            *final(state),
            OperationKind::AbsDiff,
            computation_offset,
            definition_ref,
            output@,
            outcome_of(delivery),
        ),
        delivery matches Ok(Delivery::Completed(event)) ==> decodes_to(
            OperationKind::AbsDiff,
            output@->output_fields,
            output@->result_nonce,
            CompletionEvent::AbsDiff(event),
        ),
{
    let routed = route_single(
        state,
        OperationKind::AbsDiff,
        computation_offset,
        definition_ref,
        output,
    );
    match routed {
        Ok(Delivery::Completed((result, nonce))) => {
            Ok(Delivery::Completed(AbsDiffEvent { result, nonce }))
        },
        Ok(Delivery::Aborted) => Ok(Delivery::Aborted),
        Err(error) => Err(error),
    }
}

/// Registers the `power` operation with its published circuit, which
/// declares the given parameters and outputs.
pub fn init_power_comp_def(
    state: &mut ProtocolState,
    parameters: Vec<ArgumentSlotType>,
    outputs: Vec<OutputFieldType>,
) -> (result: Result<(), RegistryError>)
    requires
        old(state).wf(),
    ensures
        registration_of(
            *old(state),
            *final(state),
            OperationKind::Power,
            published_reference(OperationKind::Power, parameters@, outputs@),
            result,
        ),
{
    init_published(state, OperationKind::Power, parameters, outputs)
}

/// Dispatches a `power` computation under the correlation identifier
/// `computation_offset`: the caller's key, the nonce, then the operands in
/// the order given. Never fails with `SchemaMismatch`.
pub fn power(
    state: &mut ProtocolState,
    computation_offset: u64,
    ciphertext_0: [u8; 32],
    ciphertext_1: [u8; 32],
    pub_key: [u8; 32],
    nonce: u128,
) -> (result: Result<Submission, DispatchError>)
    requires
        old(state).wf(),
    ensures
        dispatch_of(
            *old(state),
            *final(state),
            OperationKind::Power,
            computation_offset,
            pub_key,
            nonce,
            seq![
                scalar_of(ScalarWidth::Bits64, ciphertext_0),
                scalar_of(ScalarWidth::Bits8, ciphertext_1),
            ],
            result,
        ),
        !(result matches Err(DispatchError::SchemaMismatch)),
{
    let operands = vec![
        EncryptedScalar::new(ScalarWidth::Bits64, ciphertext_0),
        EncryptedScalar::new(ScalarWidth::Bits8, ciphertext_1),
    ];
    proof {
        assert(operands@ =~= seq![
            scalar_of(ScalarWidth::Bits64, ciphertext_0),
            scalar_of(ScalarWidth::Bits8, ciphertext_1),
        ]);
        lemma_operands_decide(OperationKind::Power, pub_key, nonce, operands@);
    }
    dispatch_operands(state, OperationKind::Power, computation_offset, pub_key, nonce, operands)
}

/// Takes the result of the `power` computation that was dispatched under
/// `computation_offset`. A delivered success comes back as the event to emit,
/// an abort as the abort signal.
pub fn power_callback(
    state: &mut ProtocolState,
    computation_offset: u64,
    definition_ref: SlotKey,
    output: &ComputationResult,
) -> (delivery: Result<Delivery<PowerEvent>, RouteError>)
    requires
        old(state).wf(),
    ensures
        delivery_of(
            *old(state),
            *final(state),
            OperationKind::Power,
            computation_offset,
            definition_ref,
            output@,
            outcome_of(delivery),
        ),
        delivery matches Ok(Delivery::Completed(event)) ==> decodes_to(
            OperationKind::Power,
            output@->output_fields,
            output@->result_nonce,
            CompletionEvent::Power(event),
        ),
{
    let routed = route_single(
        state,
        OperationKind::Power,
        computation_offset,
        definition_ref,
        output,
    );
    match routed {
        Ok(Delivery::Completed((result, nonce))) => {
            Ok(Delivery::Completed(PowerEvent { result, nonce }))
        },
        Ok(Delivery::Aborted) => Ok(Delivery::Aborted),
        Err(error) => Err(error),
    }
}

/// Registers the `greater_than` operation with its published circuit, which
/// declares the given parameters and outputs.
pub fn init_greater_than_comp_def(
    state: &mut ProtocolState,
    parameters: Vec<ArgumentSlotType>,
    outputs: Vec<OutputFieldType>,
) -> (result: Result<(), RegistryError>)
    requires
        old(state).wf(),
    ensures
        registration_of(
            *old(state),
            *final(state),
            OperationKind::GreaterThan,
            published_reference(OperationKind::GreaterThan, parameters@, outputs@),
            result,
        ),
{
    init_published(state, OperationKind::GreaterThan, parameters, outputs)
}

/// Dispatches a `greater_than` computation under the correlation identifier
/// `computation_offset`: the caller's key, the nonce, then the operands in
/// the order given. Never fails with `SchemaMismatch`.
pub fn greater_than(
    state: &mut ProtocolState,
    computation_offset: u64,
    ciphertext_0: [u8; 32],
    ciphertext_1: [u8; 32],
    pub_key: [u8; 32],
    nonce: u128,
) -> (result: Result<Submission, DispatchError>)
    requires
        old(state).wf(),
    ensures
        dispatch_of(
            *old(state),
            *final(state),
            OperationKind::GreaterThan,
            computation_offset,
            pub_key,
            nonce,
            seq![
                scalar_of(ScalarWidth::Bits64, ciphertext_0),
                scalar_of(ScalarWidth::Bits64, ciphertext_1),
            ],
            result,
        ),
        !(result matches Err(DispatchError::SchemaMismatch)),
{
    let operands = vec![
        EncryptedScalar::new(ScalarWidth::Bits64, ciphertext_0),
        EncryptedScalar::new(ScalarWidth::Bits64, ciphertext_1),
    ];
    proof {
        assert(operands@ =~= seq![
            scalar_of(ScalarWidth::Bits64, ciphertext_0),
            scalar_of(ScalarWidth::Bits64, ciphertext_1),
        ]);
        lemma_operands_decide(OperationKind::GreaterThan, pub_key, nonce, operands@);
    }
    dispatch_operands(
        state,
        OperationKind::GreaterThan,
        computation_offset,
        pub_key,
        nonce,
        operands,
    )
}

/// Takes the result of the `greater_than` computation that was dispatched under
/// `computation_offset`. A delivered success comes back as the event to emit,
/// an abort as the abort signal.
pub fn greater_than_callback(
    state: &mut ProtocolState,
    computation_offset: u64,
    definition_ref: SlotKey,
    output: &ComputationResult,
) -> (delivery: Result<Delivery<GreaterThanEvent>, RouteError>)
    requires
        old(state).wf(),
    ensures
        delivery_of(
            *old(state),
            *final(state),
            OperationKind::GreaterThan,
            computation_offset,
            definition_ref,
            output@,
            outcome_of(delivery),
        ),
        delivery matches Ok(Delivery::Completed(event)) ==> decodes_to(
            OperationKind::GreaterThan,
            output@->output_fields,
            output@->result_nonce,
            CompletionEvent::GreaterThan(event),
        ),
{
    let routed = route_single(
        state,
        OperationKind::GreaterThan,
        computation_offset,
        definition_ref,
        output,
    );
    match routed {
        Ok(Delivery::Completed((result, nonce))) => {
            Ok(Delivery::Completed(GreaterThanEvent { result, nonce }))
        },
        Ok(Delivery::Aborted) => Ok(Delivery::Aborted),
        Err(error) => Err(error),
    }
}

/// Registers the `less_than` operation with its published circuit, which
/// declares the given parameters and outputs.
pub fn init_less_than_comp_def(
    state: &mut ProtocolState,
    parameters: Vec<ArgumentSlotType>,
    outputs: Vec<OutputFieldType>,
) -> (result: Result<(), RegistryError>)
    requires
        old(state).wf(),
    ensures
        registration_of(
            *old(state),
            *final(state),
            OperationKind::LessThan,
            published_reference(OperationKind::LessThan, parameters@, outputs@),
            result,
        ),
{
    init_published(state, OperationKind::LessThan, parameters, outputs)
}

/// Dispatches a `less_than` computation under the correlation identifier
/// `computation_offset`: the caller's key, the nonce, then the operands in
/// the order given. Never fails with `SchemaMismatch`.
pub fn less_than(
    state: &mut ProtocolState,
    computation_offset: u64,
    ciphertext_0: [u8; 32],
    ciphertext_1: [u8; 32],
    pub_key: [u8; 32],
    nonce: u128,
) -> (result: Result<Submission, DispatchError>)
    requires
        old(state).wf(),
    ensures
        dispatch_of(
            *old(state),
            *final(state),
            OperationKind::LessThan,
            computation_offset,
            pub_key,
            nonce,
            seq![
                scalar_of(ScalarWidth::Bits64, ciphertext_0),
                scalar_of(ScalarWidth::Bits64, ciphertext_1),
            ],
            result,
        ),
        !(result matches Err(DispatchError::SchemaMismatch)),
{
    let operands = vec![
        EncryptedScalar::new(ScalarWidth::Bits64, ciphertext_0),
        EncryptedScalar::new(ScalarWidth::Bits64, ciphertext_1),
    ];
    proof {
        assert(operands@ =~= seq![
            scalar_of(ScalarWidth::Bits64, ciphertext_0),
            scalar_of(ScalarWidth::Bits64, ciphertext_1),
        ]);
        lemma_operands_decide(OperationKind::LessThan, pub_key, nonce, operands@);
    }
    dispatch_operands(state, OperationKind::LessThan, computation_offset, pub_key, nonce, operands)
}

/// Takes the result of the `less_than` computation that was dispatched under
/// `computation_offset`. A delivered success comes back as the event to emit,
/// an abort as the abort signal.
pub fn less_than_callback(
    state: &mut ProtocolState,
    computation_offset: u64,
    definition_ref: SlotKey,
    output: &ComputationResult,
) -> (delivery: Result<Delivery<LessThanEvent>, RouteError>)
    requires
        old(state).wf(),
    ensures
        delivery_of(
            *old(state),
            *final(state),
            OperationKind::LessThan,
            computation_offset,
            definition_ref,
            output@,
            outcome_of(delivery),
        ),
        delivery matches Ok(Delivery::Completed(event)) ==> decodes_to(
            OperationKind::LessThan,
            output@->output_fields,
            output@->result_nonce,
            CompletionEvent::LessThan(event),
        ),
{
    let routed = route_single(
        state,
        OperationKind::LessThan,
        computation_offset,
        definition_ref,
        output,
    );
    match routed {
        Ok(Delivery::Completed((result, nonce))) => {
            Ok(Delivery::Completed(LessThanEvent { result, nonce }))
        },
        Ok(Delivery::Aborted) => Ok(Delivery::Aborted),
        Err(error) => Err(error),
    }
}

/// Registers the `equal` operation with its published circuit, which
/// declares the given parameters and outputs.
pub fn init_equal_comp_def(
    state: &mut ProtocolState,
    parameters: Vec<ArgumentSlotType>,
    outputs: Vec<OutputFieldType>,
) -> (result: Result<(), RegistryError>)
    requires
        old(state).wf(),
    ensures
        registration_of(
            *old(state),
            *final(state),
            OperationKind::Equal,
            published_reference(OperationKind::Equal, parameters@, outputs@),
            result,
        ),
{
    init_published(state, OperationKind::Equal, parameters, outputs)
}

/// Dispatches an `equal` computation under the correlation identifier
/// `computation_offset`: the caller's key, the nonce, then the operands in
/// the order given. Never fails with `SchemaMismatch`.
pub fn equal(
    state: &mut ProtocolState,
    computation_offset: u64,
    ciphertext_0: [u8; 32],
    ciphertext_1: [u8; 32],
    pub_key: [u8; 32],
    nonce: u128,
) -> (result: Result<Submission, DispatchError>)
    requires
        old(state).wf(),
    ensures
        dispatch_of(
            *old(state),
            *final(state),
            OperationKind::Equal,
            computation_offset,
            pub_key,
            nonce,
            seq![
                scalar_of(ScalarWidth::Bits64, ciphertext_0),
                scalar_of(ScalarWidth::Bits64, ciphertext_1),
            ],
            result,
        ),
        !(result matches Err(DispatchError::SchemaMismatch)),
{
    let operands = vec![
        EncryptedScalar::new(ScalarWidth::Bits64, ciphertext_0),
        EncryptedScalar::new(ScalarWidth::Bits64, ciphertext_1),
    ];
    proof {
        assert(operands@ =~= seq![
            scalar_of(ScalarWidth::Bits64, ciphertext_0),
            scalar_of(ScalarWidth::Bits64, ciphertext_1),
        ]);
        lemma_operands_decide(OperationKind::Equal, pub_key, nonce, operands@);
    }
    dispatch_operands(state, OperationKind::Equal, computation_offset, pub_key, nonce, operands)
}

/// Takes the result of the `equal` computation that was dispatched under
/// `computation_offset`. A delivered success comes back as the event to emit,
/// an abort as the abort signal.
pub fn equal_callback(
    state: &mut ProtocolState,
    computation_offset: u64,
    definition_ref: SlotKey,
    output: &ComputationResult,
) -> (delivery: Result<Delivery<EqualEvent>, RouteError>)
    requires
        old(state).wf(),
    ensures
        delivery_of(
            *old(state),
            *final(state),
            OperationKind::Equal,
            computation_offset,
            definition_ref,
            output@,
            outcome_of(delivery),
        ),
        delivery matches Ok(Delivery::Completed(event)) ==> decodes_to(
            OperationKind::Equal,
            output@->output_fields,
            output@->result_nonce,
            CompletionEvent::Equal(event),
        ),
{
    let routed = route_single(
        state,
        OperationKind::Equal,
        computation_offset,
        definition_ref,
        output,
    );
    match routed {
        Ok(Delivery::Completed((result, nonce))) => {
            Ok(Delivery::Completed(EqualEvent { result, nonce }))
        },
        Ok(Delivery::Aborted) => Ok(Delivery::Aborted),
        Err(error) => Err(error),
    }
}

/// Registers the `greater_equal` operation with its published circuit, which
/// declares the given parameters and outputs.
pub fn init_greater_equal_comp_def(
    state: &mut ProtocolState,
    parameters: Vec<ArgumentSlotType>,
    outputs: Vec<OutputFieldType>,
) -> (result: Result<(), RegistryError>)
    requires
        old(state).wf(),
    ensures
        registration_of(
            *old(state),
            *final(state),
            OperationKind::GreaterEqual,
            published_reference(OperationKind::GreaterEqual, parameters@, outputs@),
            result,
        ),
{
    init_published(state, OperationKind::GreaterEqual, parameters, outputs)
}

/// Dispatches a `greater_equal` computation under the correlation identifier
/// `computation_offset`: the caller's key, the nonce, then the operands in
/// the order given. Never fails with `SchemaMismatch`.
pub fn greater_equal(
    state: &mut ProtocolState,
    computation_offset: u64,
    ciphertext_0: [u8; 32],
    ciphertext_1: [u8; 32],
    pub_key: [u8; 32],
    nonce: u128,
) -> (result: Result<Submission, DispatchError>)
    requires
        old(state).wf(),
    ensures
        dispatch_of(
            *old(state),
            *final(state),
            OperationKind::GreaterEqual,
            computation_offset,
            pub_key,
            nonce,
            seq![
                scalar_of(ScalarWidth::Bits64, ciphertext_0),
                scalar_of(ScalarWidth::Bits64, ciphertext_1),
            ],
            result,
        ),
        !(result matches Err(DispatchError::SchemaMismatch)),
{
    let operands = vec![
        EncryptedScalar::new(ScalarWidth::Bits64, ciphertext_0),
        EncryptedScalar::new(ScalarWidth::Bits64, ciphertext_1),
    ];
    proof {
        assert(operands@ =~= seq![
            scalar_of(ScalarWidth::Bits64, ciphertext_0),
            scalar_of(ScalarWidth::Bits64, ciphertext_1),
        ]);
        lemma_operands_decide(OperationKind::GreaterEqual, pub_key, nonce, operands@);
    }
    dispatch_operands(
        state,
        OperationKind::GreaterEqual,
        computation_offset,
        pub_key,
        nonce,
        operands,
    )
}

/// Takes the result of the `greater_equal` computation that was dispatched under
/// `computation_offset`. A delivered success comes back as the event to emit,
/// an abort as the abort signal.
pub fn greater_equal_callback(
    state: &mut ProtocolState,
    computation_offset: u64,
    definition_ref: SlotKey,
    output: &ComputationResult,
) -> (delivery: Result<Delivery<GreaterEqualEvent>, RouteError>)
    requires
        old(state).wf(),
    ensures
        delivery_of(
            *old(state),
            *final(state),
            OperationKind::GreaterEqual,
            computation_offset,
            definition_ref,
            output@,
            outcome_of(delivery),
        ),
        delivery matches Ok(Delivery::Completed(event)) ==> decodes_to(
            OperationKind::GreaterEqual,
            output@->output_fields,
            output@->result_nonce,
            CompletionEvent::GreaterEqual(event),
        ),
{
    let routed = route_single(
        state,
        OperationKind::GreaterEqual,
        computation_offset,
        definition_ref,
        output,
    );
    match routed {
        Ok(Delivery::Completed((result, nonce))) => {
            Ok(Delivery::Completed(GreaterEqualEvent { result, nonce }))
        },
        Ok(Delivery::Aborted) => Ok(Delivery::Aborted),
        Err(error) => Err(error),
    }
}

/// Registers the `less_equal` operation with its published circuit, which
/// declares the given parameters and outputs.
pub fn init_less_equal_comp_def(
    state: &mut ProtocolState,
    parameters: Vec<ArgumentSlotType>,
    outputs: Vec<OutputFieldType>,
) -> (result: Result<(), RegistryError>)
    requires
        old(state).wf(),
    ensures
        registration_of(
            *old(state),
            *final(state),
            OperationKind::LessEqual,
            published_reference(OperationKind::LessEqual, parameters@, outputs@),
            result,
        ),
{
    init_published(state, OperationKind::LessEqual, parameters, outputs)
}

/// Dispatches a `less_equal` computation under the correlation identifier
/// `computation_offset`: the caller's key, the nonce, then the operands in
/// the order given. Never fails with `SchemaMismatch`.
pub fn less_equal(
    state: &mut ProtocolState,
    computation_offset: u64,
    ciphertext_0: [u8; 32],
    ciphertext_1: [u8; 32],
    pub_key: [u8; 32],
    nonce: u128,
) -> (result: Result<Submission, DispatchError>)
    requires
        old(state).wf(),
    ensures
        dispatch_of(
            *old(state),
            *final(state),
            OperationKind::LessEqual,
            computation_offset,
            pub_key,
            nonce,
            seq![
                scalar_of(ScalarWidth::Bits64, ciphertext_0),
                scalar_of(ScalarWidth::Bits64, ciphertext_1),
            ],
            result,
        ),
        !(result matches Err(DispatchError::SchemaMismatch)),
{
    let operands = vec![
        EncryptedScalar::new(ScalarWidth::Bits64, ciphertext_0),
        EncryptedScalar::new(ScalarWidth::Bits64, ciphertext_1),
    ];
    proof {
        assert(operands@ =~= seq![
            scalar_of(ScalarWidth::Bits64, ciphertext_0),
            scalar_of(ScalarWidth::Bits64, ciphertext_1),
        ]);
        lemma_operands_decide(OperationKind::LessEqual, pub_key, nonce, operands@);
    }
    dispatch_operands(state, OperationKind::LessEqual, computation_offset, pub_key, nonce, operands)
}

/// Takes the result of the `less_equal` computation that was dispatched under
/// `computation_offset`. A delivered success comes back as the event to emit,
/// an abort as the abort signal.
pub fn less_equal_callback(
    state: &mut ProtocolState,
    computation_offset: u64,
    definition_ref: SlotKey,
    output: &ComputationResult,
) -> (delivery: Result<Delivery<LessEqualEvent>, RouteError>)
    requires
        old(state).wf(),
    ensures
        delivery_of(
            *old(state),
            *final(state),
            OperationKind::LessEqual,
            computation_offset,
            definition_ref,
            output@,
            outcome_of(delivery),
        ),
        delivery matches Ok(Delivery::Completed(event)) ==> decodes_to(
            OperationKind::LessEqual,
            output@->output_fields,
            output@->result_nonce,
            CompletionEvent::LessEqual(event),
        ),
{
    let routed = route_single(
        state,
        OperationKind::LessEqual,
        computation_offset,
        definition_ref,
        output,
    );
    match routed {
        Ok(Delivery::Completed((result, nonce))) => {
            Ok(Delivery::Completed(LessEqualEvent { result, nonce }))
        },
        Ok(Delivery::Aborted) => Ok(Delivery::Aborted),
        Err(error) => Err(error),
    }
}

/// Registers the `meets_threshold` operation with its published circuit, which
/// declares the given parameters and outputs.
pub fn init_meets_threshold_comp_def(
    state: &mut ProtocolState,
    parameters: Vec<ArgumentSlotType>,
    outputs: Vec<OutputFieldType>,
) -> (result: Result<(), RegistryError>)
    requires
        old(state).wf(),
    ensures
        registration_of(
            *old(state),
            *final(state),
            OperationKind::MeetsThreshold,
            published_reference(OperationKind::MeetsThreshold, parameters@, outputs@),
            result,
        ),
{
    init_published(state, OperationKind::MeetsThreshold, parameters, outputs)
}

/// Dispatches a `meets_threshold` computation under the correlation identifier
/// `computation_offset`: the caller's key, the nonce, then the operands in
/// the order given. Never fails with `SchemaMismatch`.
pub fn meets_threshold(
    state: &mut ProtocolState,
    computation_offset: u64,
    ciphertext_0: [u8; 32],
    ciphertext_1: [u8; 32],
    pub_key: [u8; 32],
    nonce: u128,
) -> (result: Result<Submission, DispatchError>)
    requires
        old(state).wf(),
    ensures
        dispatch_of(
            *old(state),
            *final(state),
            OperationKind::MeetsThreshold,
            computation_offset,
            pub_key,
            nonce,
            seq![
                scalar_of(ScalarWidth::Bits64, ciphertext_0),
                scalar_of(ScalarWidth::Bits64, ciphertext_1),
            ],
            result,
        ),
        !(result matches Err(DispatchError::SchemaMismatch)),
{
    let operands = vec![
        EncryptedScalar::new(ScalarWidth::Bits64, ciphertext_0),
        EncryptedScalar::new(ScalarWidth::Bits64, ciphertext_1),
    ];
    proof {
        assert(operands@ =~= seq![
            scalar_of(ScalarWidth::Bits64, ciphertext_0),
            scalar_of(ScalarWidth::Bits64, ciphertext_1),
        ]);
        lemma_operands_decide(OperationKind::MeetsThreshold, pub_key, nonce, operands@);
    }
    dispatch_operands(
        state,
        OperationKind::MeetsThreshold,
        computation_offset,
        pub_key,
        nonce,
        operands,
    )
}

/// Takes the result of the `meets_threshold` computation that was dispatched under
/// `computation_offset`. A delivered success comes back as the event to emit,
/// an abort as the abort signal.
pub fn meets_threshold_callback(
    state: &mut ProtocolState,
    computation_offset: u64,
    definition_ref: SlotKey,
    output: &ComputationResult,
) -> (delivery: Result<Delivery<MeetsThresholdEvent>, RouteError>)
    requires
        old(state).wf(),
    ensures
        delivery_of(
            *old(state),
            *final(state),
            OperationKind::MeetsThreshold,
            computation_offset,
            definition_ref,
            output@,
            outcome_of(delivery),
        ),
        delivery matches Ok(Delivery::Completed(event)) ==> decodes_to(
            OperationKind::MeetsThreshold,
            output@->output_fields,
            output@->result_nonce,
            CompletionEvent::MeetsThreshold(event),
        ),
{
    let routed = route_single(
        state,
        OperationKind::MeetsThreshold,
        computation_offset,
        definition_ref,
        output,
    );
    match routed {
        Ok(Delivery::Completed((result, nonce))) => {
            Ok(Delivery::Completed(MeetsThresholdEvent { result, nonce }))
        },
        Ok(Delivery::Aborted) => Ok(Delivery::Aborted),
        Err(error) => Err(error),
    }
}

/// Registers the `in_range` operation with its published circuit, which
/// declares the given parameters and outputs.
pub fn init_in_range_comp_def(
    state: &mut ProtocolState,
    parameters: Vec<ArgumentSlotType>,
    outputs: Vec<OutputFieldType>,
) -> (result: Result<(), RegistryError>)
    requires
        old(state).wf(),
    ensures
        registration_of(
            *old(state),
            *final(state),
            OperationKind::InRange,
            published_reference(OperationKind::InRange, parameters@, outputs@),
            result,
        ),
{
    init_published(state, OperationKind::InRange, parameters, outputs)
}

/// Dispatches an `in_range` computation under the correlation identifier
/// `computation_offset`: the caller's key, the nonce, then the operands in
/// the order given. Never fails with `SchemaMismatch`.
pub fn in_range(
    state: &mut ProtocolState,
    computation_offset: u64,
    ciphertext_0: [u8; 32],
    ciphertext_1: [u8; 32],
    ciphertext_2: [u8; 32],
    pub_key: [u8; 32],
    nonce: u128,
) -> (result: Result<Submission, DispatchError>)
    requires
        old(state).wf(),
    ensures
        dispatch_of(
            *old(state),
            *final(state),
            OperationKind::InRange,
            computation_offset,
            pub_key,
            nonce,
            seq![
                scalar_of(ScalarWidth::Bits64, ciphertext_0),
                scalar_of(ScalarWidth::Bits64, ciphertext_1),
                scalar_of(ScalarWidth::Bits64, ciphertext_2),
            ],
            result,
        ),
        !(result matches Err(DispatchError::SchemaMismatch)),
{
    let operands = vec![
        EncryptedScalar::new(ScalarWidth::Bits64, ciphertext_0),
        EncryptedScalar::new(ScalarWidth::Bits64, ciphertext_1),
        EncryptedScalar::new(ScalarWidth::Bits64, ciphertext_2),
    ];
    proof {
        assert(operands@ =~= seq![
            scalar_of(ScalarWidth::Bits64, ciphertext_0),
            scalar_of(ScalarWidth::Bits64, ciphertext_1),
            scalar_of(ScalarWidth::Bits64, ciphertext_2),
        ]);
        lemma_operands_decide(OperationKind::InRange, pub_key, nonce, operands@);
    }
    dispatch_operands(state, OperationKind::InRange, computation_offset, pub_key, nonce, operands)
}

/// Takes the result of the `in_range` computation that was dispatched under
/// `computation_offset`. A delivered success comes back as the event to emit,
/// an abort as the abort signal.
pub fn in_range_callback(
    state: &mut ProtocolState,
    computation_offset: u64,
    definition_ref: SlotKey,
    output: &ComputationResult,
) -> (delivery: Result<Delivery<InRangeEvent>, RouteError>)
    requires
        old(state).wf(),
    ensures
        delivery_of(
            *old(state),
            *final(state),
            OperationKind::InRange,
            computation_offset,
            definition_ref,
            output@,
            outcome_of(delivery),
        ),
        delivery matches Ok(Delivery::Completed(event)) ==> decodes_to(
            OperationKind::InRange,
            output@->output_fields,
            output@->result_nonce,
            CompletionEvent::InRange(event),
        ),
{
    let routed = route_single(
        state,
        OperationKind::InRange,
        computation_offset,
        definition_ref,
        output,
    );
    match routed {
        Ok(Delivery::Completed((result, nonce))) => {
            Ok(Delivery::Completed(InRangeEvent { result, nonce }))
        },
        Ok(Delivery::Aborted) => Ok(Delivery::Aborted),
        Err(error) => Err(error),
    }
}

/// Registers the `and` operation with its published circuit, which
/// declares the given parameters and outputs.
pub fn init_and_comp_def(
    state: &mut ProtocolState,
    parameters: Vec<ArgumentSlotType>,
    outputs: Vec<OutputFieldType>,
) -> (result: Result<(), RegistryError>)
    requires
        old(state).wf(),
    ensures
        registration_of(
            *old(state),
            *final(state),
            OperationKind::And,
            published_reference(OperationKind::And, parameters@, outputs@),
            result,
        ),
{
    init_published(state, OperationKind::And, parameters, outputs)
}

/// Dispatches an `and` computation under the correlation identifier
/// `computation_offset`: the caller's key, the nonce, then the operands in
/// the order given. Never fails with `SchemaMismatch`.
pub fn and(
    state: &mut ProtocolState,
    computation_offset: u64,
    ciphertext_0: [u8; 32],
    ciphertext_1: [u8; 32],
    pub_key: [u8; 32],
    nonce: u128,
) -> (result: Result<Submission, DispatchError>)
    requires
        old(state).wf(),
    ensures
        dispatch_of(
            *old(state),
            *final(state),
            OperationKind::And,
            computation_offset,
            pub_key,
            nonce,
            seq![
                scalar_of(ScalarWidth::Bits8, ciphertext_0),
                scalar_of(ScalarWidth::Bits8, ciphertext_1),
            ],
            result,
        ),
        !(result matches Err(DispatchError::SchemaMismatch)),
{
    let operands = vec![
        EncryptedScalar::new(ScalarWidth::Bits8, ciphertext_0),
        EncryptedScalar::new(ScalarWidth::Bits8, ciphertext_1),
    ];
    proof {
        assert(operands@ =~= seq![
            scalar_of(ScalarWidth::Bits8, ciphertext_0),
            scalar_of(ScalarWidth::Bits8, ciphertext_1),
        ]);
        lemma_operands_decide(OperationKind::And, pub_key, nonce, operands@);
    }
    dispatch_operands(state, OperationKind::And, computation_offset, pub_key, nonce, operands)
}

/// Takes the result of the `and` computation that was dispatched under
/// `computation_offset`. A delivered success comes back as the event to emit,
/// an abort as the abort signal.
pub fn and_callback(
    state: &mut ProtocolState,
    computation_offset: u64,
    definition_ref: SlotKey,
    output: &ComputationResult,
) -> (delivery: Result<Delivery<AndEvent>, RouteError>)
    requires
        old(state).wf(),
    ensures
        delivery_of(
            *old(state),
            *final(state),
            OperationKind::And,
            computation_offset,
            definition_ref,
            output@,
            outcome_of(delivery),
        ),
        delivery matches Ok(Delivery::Completed(event)) ==> decodes_to(
            OperationKind::And,
            output@->output_fields,
            output@->result_nonce,
            CompletionEvent::And(event),
        ),
{
    let routed = route_single(
        state,
        OperationKind::And,
        computation_offset,
        definition_ref,
        output,
    );
    match routed {
        Ok(Delivery::Completed((result, nonce))) => {
            Ok(Delivery::Completed(AndEvent { result, nonce }))
        },
        Ok(Delivery::Aborted) => Ok(Delivery::Aborted),
        Err(error) => Err(error),
    }
}

/// Registers the `or` operation with its published circuit, which
/// declares the given parameters and outputs.
pub fn init_or_comp_def(
    state: &mut ProtocolState,
    parameters: Vec<ArgumentSlotType>,
    outputs: Vec<OutputFieldType>,
) -> (result: Result<(), RegistryError>)
    requires
        old(state).wf(),
    ensures
        registration_of(
            *old(state),
            *final(state),
            OperationKind::Or,
            published_reference(OperationKind::Or, parameters@, outputs@),
            result,
        ),
{
    init_published(state, OperationKind::Or, parameters, outputs)
}

/// Dispatches an `or` computation under the correlation identifier
/// `computation_offset`: the caller's key, the nonce, then the operands in
/// the order given. Never fails with `SchemaMismatch`.
pub fn or(
    state: &mut ProtocolState,
    computation_offset: u64,
    ciphertext_0: [u8; 32],
    ciphertext_1: [u8; 32],
    pub_key: [u8; 32],
    nonce: u128,
) -> (result: Result<Submission, DispatchError>)
    requires
        old(state).wf(),
    ensures
        dispatch_of(
            *old(state),
            *final(state),
            OperationKind::Or,
            computation_offset,
            pub_key,
            nonce,
            seq![
                scalar_of(ScalarWidth::Bits8, ciphertext_0),
                scalar_of(ScalarWidth::Bits8, ciphertext_1),
            ],
            result,
        ),
        !(result matches Err(DispatchError::SchemaMismatch)),
{
    let operands = vec![
        EncryptedScalar::new(ScalarWidth::Bits8, ciphertext_0),
        EncryptedScalar::new(ScalarWidth::Bits8, ciphertext_1),
    ];
    proof {
        assert(operands@ =~= seq![
            scalar_of(ScalarWidth::Bits8, ciphertext_0),
            scalar_of(ScalarWidth::Bits8, ciphertext_1),
        ]);
        lemma_operands_decide(OperationKind::Or, pub_key, nonce, operands@);
    }
    dispatch_operands(state, OperationKind::Or, computation_offset, pub_key, nonce, operands)
}

/// Takes the result of the `or` computation that was dispatched under
/// `computation_offset`. A delivered success comes back as the event to emit,
/// an abort as the abort signal.
pub fn or_callback(
    state: &mut ProtocolState,
    computation_offset: u64,
    definition_ref: SlotKey,
    output: &ComputationResult,
) -> (delivery: Result<Delivery<OrEvent>, RouteError>)
    requires
        old(state).wf(),
    ensures
        delivery_of(
            *old(state),
            *final(state),
            OperationKind::Or,
            computation_offset,
            definition_ref,
            output@,
            outcome_of(delivery),
        ),
        delivery matches Ok(Delivery::Completed(event)) ==> decodes_to(
            OperationKind::Or,
            output@->output_fields,
            output@->result_nonce,
            CompletionEvent::Or(event),
        ),
{
    let routed = route_single(state, OperationKind::Or, computation_offset, definition_ref, output);
    match routed {
        Ok(Delivery::Completed((result, nonce))) => {
            Ok(Delivery::Completed(OrEvent { result, nonce }))
        },
        Ok(Delivery::Aborted) => Ok(Delivery::Aborted),
        Err(error) => Err(error),
    }
}

/// Registers the `xor` operation with its published circuit, which
/// declares the given parameters and outputs.
pub fn init_xor_comp_def(
    state: &mut ProtocolState,
    parameters: Vec<ArgumentSlotType>,
    outputs: Vec<OutputFieldType>,
) -> (result: Result<(), RegistryError>)
    requires
        old(state).wf(),
    ensures
        registration_of(
            *old(state),
            *final(state),
            OperationKind::Xor,
            published_reference(OperationKind::Xor, parameters@, outputs@),
            result,
        ),
{
    init_published(state, OperationKind::Xor, parameters, outputs)
}

/// Dispatches a `xor` computation under the correlation identifier
/// `computation_offset`: the caller's key, the nonce, then the operands in
/// the order given. Never fails with `SchemaMismatch`.
pub fn xor(
    state: &mut ProtocolState,
    computation_offset: u64,
    ciphertext_0: [u8; 32],
    ciphertext_1: [u8; 32],
    pub_key: [u8; 32],
    nonce: u128,
) -> (result: Result<Submission, DispatchError>)
    requires
        old(state).wf(),
    ensures
        dispatch_of(
            *old(state),
            *final(state),
            OperationKind::Xor,
            computation_offset,
            pub_key,
            nonce,
            seq![
                scalar_of(ScalarWidth::Bits8, ciphertext_0),
                scalar_of(ScalarWidth::Bits8, ciphertext_1),
            ],
            result,
        ),
        !(result matches Err(DispatchError::SchemaMismatch)),
{
    let operands = vec![
        EncryptedScalar::new(ScalarWidth::Bits8, ciphertext_0),
        EncryptedScalar::new(ScalarWidth::Bits8, ciphertext_1),
    ];
    proof {
        assert(operands@ =~= seq![
            scalar_of(ScalarWidth::Bits8, ciphertext_0),
            scalar_of(ScalarWidth::Bits8, ciphertext_1),
        ]);
        lemma_operands_decide(OperationKind::Xor, pub_key, nonce, operands@);
    }
    dispatch_operands(state, OperationKind::Xor, computation_offset, pub_key, nonce, operands)
}

/// Takes the result of the `xor` computation that was dispatched under
/// `computation_offset`. A delivered success comes back as the event to emit,
/// an abort as the abort signal.
pub fn xor_callback(
    state: &mut ProtocolState,
    computation_offset: u64,
    definition_ref: SlotKey,
    output: &ComputationResult,
) -> (delivery: Result<Delivery<XorEvent>, RouteError>)
    requires
        old(state).wf(),
    ensures
        delivery_of(
            *old(state),
            *final(state),
            OperationKind::Xor,
            computation_offset,
            definition_ref,
            output@,
            outcome_of(delivery),
        ),
        delivery matches Ok(Delivery::Completed(event)) ==> decodes_to(
            OperationKind::Xor,
            output@->output_fields,
            output@->result_nonce,
            CompletionEvent::Xor(event),
        ),
{
    let routed = route_single(
        state,
        OperationKind::Xor,
        computation_offset,
        definition_ref,
        output,
    );
    match routed {
        Ok(Delivery::Completed((result, nonce))) => {
            Ok(Delivery::Completed(XorEvent { result, nonce }))
        },
        Ok(Delivery::Aborted) => Ok(Delivery::Aborted),
        Err(error) => Err(error),
    }
}

/// Registers the `not` operation with its published circuit, which
/// declares the given parameters and outputs.
pub fn init_not_comp_def(
    state: &mut ProtocolState,
    parameters: Vec<ArgumentSlotType>,
    outputs: Vec<OutputFieldType>,
) -> (result: Result<(), RegistryError>)
    requires
        old(state).wf(),
    ensures
        registration_of(
            *old(state),
            *final(state),
            OperationKind::Not,
            published_reference(OperationKind::Not, parameters@, outputs@),
            result,
        ),
{
    init_published(state, OperationKind::Not, parameters, outputs)
}

/// Dispatches a `not` computation under the correlation identifier
/// `computation_offset`: the caller's key, the nonce, then the operands in
/// the order given. Never fails with `SchemaMismatch`.
pub fn not(
    state: &mut ProtocolState,
    computation_offset: u64,
    ciphertext_0: [u8; 32],
    pub_key: [u8; 32],
    nonce: u128,
) -> (result: Result<Submission, DispatchError>)
    requires
        old(state).wf(),
    ensures
        dispatch_of(
            *old(state),
            *final(state),
            OperationKind::Not,
            computation_offset,
            pub_key,
            nonce,
            seq![scalar_of(ScalarWidth::Bits8, ciphertext_0)],
            result,
        ),
        !(result matches Err(DispatchError::SchemaMismatch)),
{
    let operands = vec![EncryptedScalar::new(ScalarWidth::Bits8, ciphertext_0)];
    proof {
        assert(operands@ =~= seq![scalar_of(ScalarWidth::Bits8, ciphertext_0)]);
        lemma_operands_decide(OperationKind::Not, pub_key, nonce, operands@);
    }
    dispatch_operands(state, OperationKind::Not, computation_offset, pub_key, nonce, operands)
}

/// Takes the result of the `not` computation that was dispatched under
/// `computation_offset`. A delivered success comes back as the event to emit,
/// an abort as the abort signal.
pub fn not_callback(
    state: &mut ProtocolState,
    computation_offset: u64,
    definition_ref: SlotKey,
    output: &ComputationResult,
) -> (delivery: Result<Delivery<NotEvent>, RouteError>)
    requires
        old(state).wf(),
    ensures
        delivery_of(
            *old(state),
            *final(state),
            OperationKind::Not,
            computation_offset,
            definition_ref,
            output@,
            outcome_of(delivery),
        ),
        delivery matches Ok(Delivery::Completed(event)) ==> decodes_to(
            OperationKind::Not,
            output@->output_fields,
            output@->result_nonce,
            CompletionEvent::Not(event),
        ),
{
    let routed = route_single(
        state,
        OperationKind::Not,
        computation_offset,
        definition_ref,
        output,
    );
    match routed {
        Ok(Delivery::Completed((result, nonce))) => {
            Ok(Delivery::Completed(NotEvent { result, nonce }))
        },
        Ok(Delivery::Aborted) => Ok(Delivery::Aborted),
        Err(error) => Err(error),
    }
}

/// Registers the `if_else` operation with its published circuit, which
/// declares the given parameters and outputs.
pub fn init_if_else_comp_def(
    state: &mut ProtocolState,
    parameters: Vec<ArgumentSlotType>,
    outputs: Vec<OutputFieldType>,
) -> (result: Result<(), RegistryError>)
    requires
        old(state).wf(),
    ensures
        registration_of(
            *old(state),
            *final(state),
            OperationKind::IfElse,
            published_reference(OperationKind::IfElse, parameters@, outputs@),
            result,
        ),
{
    init_published(state, OperationKind::IfElse, parameters, outputs)
}

/// Dispatches an `if_else` computation under the correlation identifier
/// `computation_offset`: the caller's key, the nonce, then the operands in
/// the order given. Never fails with `SchemaMismatch`.
pub fn if_else(
    state: &mut ProtocolState,
    computation_offset: u64,
    ciphertext_0: [u8; 32],
    ciphertext_1: [u8; 32],
    ciphertext_2: [u8; 32],
    pub_key: [u8; 32],
    nonce: u128,
) -> (result: Result<Submission, DispatchError>)
    requires
        old(state).wf(),
    ensures
        dispatch_of(
            *old(state),
            *final(state),
            OperationKind::IfElse,
            computation_offset,
            pub_key,
            nonce,
            seq![
                scalar_of(ScalarWidth::Bits8, ciphertext_0),
                scalar_of(ScalarWidth::Bits64, ciphertext_1),
                scalar_of(ScalarWidth::Bits64, ciphertext_2),
            ],
            result,
        ),
        !(result matches Err(DispatchError::SchemaMismatch)),
{
    let operands = vec![
        EncryptedScalar::new(ScalarWidth::Bits8, ciphertext_0),
        EncryptedScalar::new(ScalarWidth::Bits64, ciphertext_1),
        EncryptedScalar::new(ScalarWidth::Bits64, ciphertext_2),
    ];
    proof {
        assert(operands@ =~= seq![
            scalar_of(ScalarWidth::Bits8, ciphertext_0),
            scalar_of(ScalarWidth::Bits64, ciphertext_1),
            scalar_of(ScalarWidth::Bits64, ciphertext_2),
        ]);
        lemma_operands_decide(OperationKind::IfElse, pub_key, nonce, operands@);
    }
    dispatch_operands(state, OperationKind::IfElse, computation_offset, pub_key, nonce, operands)
}

/// Takes the result of the `if_else` computation that was dispatched under
/// `computation_offset`. A delivered success comes back as the event to emit,
/// an abort as the abort signal.
pub fn if_else_callback(
    state: &mut ProtocolState,
    computation_offset: u64,
    definition_ref: SlotKey,
    output: &ComputationResult,
) -> (delivery: Result<Delivery<IfElseEvent>, RouteError>)
    requires
        old(state).wf(),
    ensures
        delivery_of(
            *old(state),
            *final(state),
            OperationKind::IfElse,
            computation_offset,
            definition_ref,
            output@,
            outcome_of(delivery),
        ),
        delivery matches Ok(Delivery::Completed(event)) ==> decodes_to(
            OperationKind::IfElse,
            output@->output_fields,
            output@->result_nonce,
            CompletionEvent::IfElse(event),
        ),
{
    let routed = route_single(
        state,
        OperationKind::IfElse,
        computation_offset,
        definition_ref,
        output,
    );
    match routed {
        Ok(Delivery::Completed((result, nonce))) => {
            Ok(Delivery::Completed(IfElseEvent { result, nonce }))
        },
        Ok(Delivery::Aborted) => Ok(Delivery::Aborted),
        Err(error) => Err(error),
    }
}

/// Registers the `vote_tally` operation with its published circuit, which
/// declares the given parameters and outputs.
pub fn init_vote_tally_comp_def(
    state: &mut ProtocolState,
    parameters: Vec<ArgumentSlotType>,
    outputs: Vec<OutputFieldType>,
) -> (result: Result<(), RegistryError>)
    requires
        old(state).wf(),
    ensures
        registration_of(
            *old(state),
            *final(state),
            OperationKind::VoteTally,
            published_reference(OperationKind::VoteTally, parameters@, outputs@),
            result,
        ),
{
    init_published(state, OperationKind::VoteTally, parameters, outputs)
}

/// Dispatches a `vote_tally` computation under the correlation identifier
/// `computation_offset`: the caller's key, the nonce, then the operands in
/// the order given. Never fails with `SchemaMismatch`.
pub fn vote_tally(
    state: &mut ProtocolState,
    computation_offset: u64,
    ciphertext_0: [u8; 32],
    pub_key: [u8; 32],
    nonce: u128,
) -> (result: Result<Submission, DispatchError>)
    requires
        old(state).wf(),
    ensures
        dispatch_of(
            *old(state),
            *final(state),
            OperationKind::VoteTally,
            computation_offset,
            pub_key,
            nonce,
            seq![scalar_of(ScalarWidth::Bits8, ciphertext_0)],
            result,
        ),
        !(result matches Err(DispatchError::SchemaMismatch)),
{
    let operands = vec![EncryptedScalar::new(ScalarWidth::Bits8, ciphertext_0)];
    proof {
        assert(operands@ =~= seq![scalar_of(ScalarWidth::Bits8, ciphertext_0)]);
        lemma_operands_decide(OperationKind::VoteTally, pub_key, nonce, operands@);
    }
    dispatch_operands(state, OperationKind::VoteTally, computation_offset, pub_key, nonce, operands)
}

/// Takes the result of the `vote_tally` computation that was dispatched under
/// `computation_offset`. A delivered success comes back as the event to emit,
/// an abort as the abort signal.
pub fn vote_tally_callback(
    state: &mut ProtocolState,
    computation_offset: u64,
    definition_ref: SlotKey,
    output: &ComputationResult,
) -> (delivery: Result<Delivery<VoteTallyEvent>, RouteError>)
    requires
        old(state).wf(),
    ensures
        delivery_of(
            *old(state),
            *final(state),
            OperationKind::VoteTally,
            computation_offset,
            definition_ref,
            output@,
            outcome_of(delivery),
        ),
        delivery matches Ok(Delivery::Completed(event)) ==> decodes_to(
            OperationKind::VoteTally,
            output@->output_fields,
            output@->result_nonce,
            CompletionEvent::VoteTally(event),
        ),
{
    let routed = route_single(
        state,
        OperationKind::VoteTally,
        computation_offset,
        definition_ref,
        output,
    );
    match routed {
        Ok(Delivery::Completed((result, nonce))) => {
            Ok(Delivery::Completed(VoteTallyEvent { result, nonce }))
        },
        Ok(Delivery::Aborted) => Ok(Delivery::Aborted),
        Err(error) => Err(error),
    }
}

/// Registers the `average` operation with its published circuit, which
/// declares the given parameters and outputs.
pub fn init_average_comp_def(
    state: &mut ProtocolState,
    parameters: Vec<ArgumentSlotType>,
    outputs: Vec<OutputFieldType>,
) -> (result: Result<(), RegistryError>)
    requires
        old(state).wf(),
    ensures
        registration_of(
            *old(state),
            *final(state),
            OperationKind::Average,
            published_reference(OperationKind::Average, parameters@, outputs@),
            result,
        ),
{
    init_published(state, OperationKind::Average, parameters, outputs)
}

/// Dispatches an `average` computation under the correlation identifier
/// `computation_offset`: the caller's key, the nonce, then the operands in
/// the order given. Never fails with `SchemaMismatch`.
pub fn average(
    state: &mut ProtocolState,
    computation_offset: u64,
    values: [u8; 32],
    count: [u8; 32],
    pub_key: [u8; 32],
    nonce: u128,
) -> (result: Result<Submission, DispatchError>)
    requires
        old(state).wf(),
    ensures
        dispatch_of(
            *old(state),
            *final(state),
            OperationKind::Average,
            computation_offset,
            pub_key,
            nonce,
            seq![
                scalar_of(ScalarWidth::Bits64, values),
                scalar_of(ScalarWidth::Bits8, count),
            ],
            result,
        ),
        !(result matches Err(DispatchError::SchemaMismatch)),
{
    let operands = vec![
        EncryptedScalar::new(ScalarWidth::Bits64, values),
        EncryptedScalar::new(ScalarWidth::Bits8, count),
    ];
    proof {
        assert(operands@ =~= seq![
            scalar_of(ScalarWidth::Bits64, values),
            scalar_of(ScalarWidth::Bits8, count),
        ]);
        lemma_operands_decide(OperationKind::Average, pub_key, nonce, operands@);
    }
    dispatch_operands(state, OperationKind::Average, computation_offset, pub_key, nonce, operands)
}

/// Takes the result of the `average` computation that was dispatched under
/// `computation_offset`. A delivered success comes back as the event to emit,
/// an abort as the abort signal.
pub fn average_callback(
    state: &mut ProtocolState,
    computation_offset: u64,
    definition_ref: SlotKey,
    output: &ComputationResult,
) -> (delivery: Result<Delivery<AverageEvent>, RouteError>)
    requires
        old(state).wf(),
    ensures
        delivery_of(
            *old(state),
            *final(state),
            OperationKind::Average,
            computation_offset,
            definition_ref,
            output@,
            outcome_of(delivery),
        ),
        delivery matches Ok(Delivery::Completed(event)) ==> decodes_to(
            OperationKind::Average,
            output@->output_fields,
            output@->result_nonce,
            CompletionEvent::Average(event),
        ),
{
    let routed = route_single(
        state,
        OperationKind::Average,
        computation_offset,
        definition_ref,
        output,
    );
    match routed {
        Ok(Delivery::Completed((result, nonce))) => {
            Ok(Delivery::Completed(AverageEvent { result, nonce }))
        },
        Ok(Delivery::Aborted) => Ok(Delivery::Aborted),
        Err(error) => Err(error),
    }
}

/// Registers the `sum` operation with its published circuit, which
/// declares the given parameters and outputs.
pub fn init_sum_comp_def(
    state: &mut ProtocolState,
    parameters: Vec<ArgumentSlotType>,
    outputs: Vec<OutputFieldType>,
) -> (result: Result<(), RegistryError>)
    requires
        old(state).wf(),
    ensures
        registration_of(
            *old(state),
            *final(state),
            OperationKind::Sum,
            published_reference(OperationKind::Sum, parameters@, outputs@),
            result,
        ),
{
    init_published(state, OperationKind::Sum, parameters, outputs)
}

/// Dispatches a `sum` computation under the correlation identifier
/// `computation_offset`: the caller's key, the nonce, then the operands in
/// the order given. Never fails with `SchemaMismatch`.
pub fn sum(
    state: &mut ProtocolState,
    computation_offset: u64,
    values: [u8; 32],
    count: [u8; 32],
    pub_key: [u8; 32],
    nonce: u128,
) -> (result: Result<Submission, DispatchError>)
    requires
        old(state).wf(),
    ensures
        dispatch_of(
            *old(state),
            *final(state),
            OperationKind::Sum,
            computation_offset,
            pub_key,
            nonce,
            seq![
                scalar_of(ScalarWidth::Bits64, values),
                scalar_of(ScalarWidth::Bits8, count),
            ],
            result,
        ),
        !(result matches Err(DispatchError::SchemaMismatch)),
{
    let operands = vec![
        EncryptedScalar::new(ScalarWidth::Bits64, values),
        EncryptedScalar::new(ScalarWidth::Bits8, count),
    ];
    proof {
        assert(operands@ =~= seq![
            scalar_of(ScalarWidth::Bits64, values),
            scalar_of(ScalarWidth::Bits8, count),
        ]);
        lemma_operands_decide(OperationKind::Sum, pub_key, nonce, operands@);
    }
    dispatch_operands(state, OperationKind::Sum, computation_offset, pub_key, nonce, operands)
}

/// Takes the result of the `sum` computation that was dispatched under
/// `computation_offset`. A delivered success comes back as the event to emit,
/// an abort as the abort signal.
pub fn sum_callback(
    state: &mut ProtocolState,
    computation_offset: u64,
    definition_ref: SlotKey,
    output: &ComputationResult,
) -> (delivery: Result<Delivery<SumEvent>, RouteError>)
    requires
        old(state).wf(),
    ensures
        delivery_of(
            *old(state),
            *final(state),
            OperationKind::Sum,
            computation_offset,
            definition_ref,
            output@,
            outcome_of(delivery),
        ),
        delivery matches Ok(Delivery::Completed(event)) ==> decodes_to(
            OperationKind::Sum,
            output@->output_fields,
            output@->result_nonce,
            CompletionEvent::Sum(event),
        ),
{
    let routed = route_single(
        state,
        OperationKind::Sum,
        computation_offset,
        definition_ref,
        output,
    );
    match routed {
        Ok(Delivery::Completed((result, nonce))) => {
            Ok(Delivery::Completed(SumEvent { result, nonce }))
        },
        Ok(Delivery::Aborted) => Ok(Delivery::Aborted),
        Err(error) => Err(error),
    }
}

/// Registers the `min` operation with its published circuit, which
/// declares the given parameters and outputs.
pub fn init_min_comp_def(
    state: &mut ProtocolState,
    parameters: Vec<ArgumentSlotType>,
    outputs: Vec<OutputFieldType>,
) -> (result: Result<(), RegistryError>)
    requires
        old(state).wf(),
    ensures
        registration_of(
            *old(state),
            *final(state),
            OperationKind::Min,
            published_reference(OperationKind::Min, parameters@, outputs@),
            result,
        ),
{
    init_published(state, OperationKind::Min, parameters, outputs)
}

/// Dispatches a `min` computation under the correlation identifier
/// `computation_offset`: the caller's key, the nonce, then the operands in
/// the order given. Never fails with `SchemaMismatch`.
pub fn min(
    state: &mut ProtocolState,
    computation_offset: u64,
    values: [u8; 32],
    count: [u8; 32],
    pub_key: [u8; 32],
    nonce: u128,
) -> (result: Result<Submission, DispatchError>)
    requires
        old(state).wf(),
    ensures
        dispatch_of(
            *old(state),
            *final(state),
            OperationKind::Min,
            computation_offset,
            pub_key,
            nonce,
            seq![
                scalar_of(ScalarWidth::Bits64, values),
                scalar_of(ScalarWidth::Bits8, count),
            ],
            result,
        ),
        !(result matches Err(DispatchError::SchemaMismatch)),
{
    let operands = vec![
        EncryptedScalar::new(ScalarWidth::Bits64, values),
        EncryptedScalar::new(ScalarWidth::Bits8, count),
    ];
    proof {
        assert(operands@ =~= seq![
            scalar_of(ScalarWidth::Bits64, values),
            scalar_of(ScalarWidth::Bits8, count),
        ]);
        lemma_operands_decide(OperationKind::Min, pub_key, nonce, operands@);
    }
    dispatch_operands(state, OperationKind::Min, computation_offset, pub_key, nonce, operands)
}

/// Takes the result of the `min` computation that was dispatched under
/// `computation_offset`. A delivered success comes back as the event to emit,
/// an abort as the abort signal.
pub fn min_callback(
    state: &mut ProtocolState,
    computation_offset: u64,
    definition_ref: SlotKey,
    output: &ComputationResult,
) -> (delivery: Result<Delivery<MinEvent>, RouteError>)
    requires
        old(state).wf(),
    ensures
        delivery_of(
            *old(state),
            *final(state),
            OperationKind::Min,
            computation_offset,
            definition_ref,
            output@,
            outcome_of(delivery),
        ),
        delivery matches Ok(Delivery::Completed(event)) ==> decodes_to(
            OperationKind::Min,
            output@->output_fields,
            output@->result_nonce,
            CompletionEvent::Min(event),
        ),
{
    let routed = route_single(
        state,
        OperationKind::Min,
        computation_offset,
        definition_ref,
        output,
    );
    match routed {
        Ok(Delivery::Completed((result, nonce))) => {
            Ok(Delivery::Completed(MinEvent { result, nonce }))
        },
        Ok(Delivery::Aborted) => Ok(Delivery::Aborted),
        Err(error) => Err(error),
    }
}

/// Registers the `max` operation with its published circuit, which
/// declares the given parameters and outputs.
pub fn init_max_comp_def(
    state: &mut ProtocolState,
    parameters: Vec<ArgumentSlotType>,
    outputs: Vec<OutputFieldType>,
) -> (result: Result<(), RegistryError>)
    requires
        old(state).wf(),
    ensures
        registration_of(
            *old(state),
            *final(state),
            OperationKind::Max,
            published_reference(OperationKind::Max, parameters@, outputs@),
            result,
        ),
{
    init_published(state, OperationKind::Max, parameters, outputs)
}

/// Dispatches a `max` computation under the correlation identifier
/// `computation_offset`: the caller's key, the nonce, then the operands in
/// the order given. Never fails with `SchemaMismatch`.
pub fn max(
    state: &mut ProtocolState,
    computation_offset: u64,
    values: [u8; 32],
    count: [u8; 32],
    pub_key: [u8; 32],
    nonce: u128,
) -> (result: Result<Submission, DispatchError>)
    requires
        old(state).wf(),
    ensures
        dispatch_of(
            *old(state),
            *final(state),
            OperationKind::Max,
            computation_offset,
            pub_key,
            nonce,
            seq![
                scalar_of(ScalarWidth::Bits64, values),
                scalar_of(ScalarWidth::Bits8, count),
            ],
            result,
        ),
        !(result matches Err(DispatchError::SchemaMismatch)),
{
    let operands = vec![
        EncryptedScalar::new(ScalarWidth::Bits64, values),
        EncryptedScalar::new(ScalarWidth::Bits8, count),
    ];
    proof {
        assert(operands@ =~= seq![
            scalar_of(ScalarWidth::Bits64, values),
            scalar_of(ScalarWidth::Bits8, count),
        ]);
        lemma_operands_decide(OperationKind::Max, pub_key, nonce, operands@);
    }
    dispatch_operands(state, OperationKind::Max, computation_offset, pub_key, nonce, operands)
}

/// Takes the result of the `max` computation that was dispatched under
/// `computation_offset`. A delivered success comes back as the event to emit,
/// an abort as the abort signal.
pub fn max_callback(
    state: &mut ProtocolState,
    computation_offset: u64,
    definition_ref: SlotKey,
    output: &ComputationResult,
) -> (delivery: Result<Delivery<MaxEvent>, RouteError>)
    requires
        old(state).wf(),
    ensures
        delivery_of(
            *old(state),
            *final(state),
            OperationKind::Max,
            computation_offset,
            definition_ref,
            output@,
            outcome_of(delivery),
        ),
        delivery matches Ok(Delivery::Completed(event)) ==> decodes_to(
            OperationKind::Max,
            output@->output_fields,
            output@->result_nonce,
            CompletionEvent::Max(event),
        ),
{
    let routed = route_single(
        state,
        OperationKind::Max,
        computation_offset,
        definition_ref,
        output,
    );
    match routed {
        Ok(Delivery::Completed((result, nonce))) => {
            Ok(Delivery::Completed(MaxEvent { result, nonce }))
        },
        Ok(Delivery::Aborted) => Ok(Delivery::Aborted),
        Err(error) => Err(error),
    }
}

/// Registers the `median` operation with its published circuit, which
/// declares the given parameters and outputs.
pub fn init_median_comp_def(
    state: &mut ProtocolState,
    parameters: Vec<ArgumentSlotType>,
    outputs: Vec<OutputFieldType>,
) -> (result: Result<(), RegistryError>)
    requires
        old(state).wf(),
    ensures
        registration_of(
            *old(state),
            *final(state),
            OperationKind::Median,
            published_reference(OperationKind::Median, parameters@, outputs@),
            result,
        ),
{
    init_published(state, OperationKind::Median, parameters, outputs)
}

/// Dispatches a `median` computation under the correlation identifier
/// `computation_offset`: the caller's key, the nonce, then the operands in
/// the order given. Never fails with `SchemaMismatch`.
pub fn median(
    state: &mut ProtocolState,
    computation_offset: u64,
    values: [u8; 32],
    count: [u8; 32],
    pub_key: [u8; 32],
    nonce: u128,
) -> (result: Result<Submission, DispatchError>)
    requires
        old(state).wf(),
    ensures
        dispatch_of(
            *old(state),
            *final(state),
            OperationKind::Median,
            computation_offset,
            pub_key,
            nonce,
            seq![
                scalar_of(ScalarWidth::Bits64, values),
                scalar_of(ScalarWidth::Bits8, count),
            ],
            result,
        ),
        !(result matches Err(DispatchError::SchemaMismatch)),
{
    let operands = vec![
        EncryptedScalar::new(ScalarWidth::Bits64, values),
        EncryptedScalar::new(ScalarWidth::Bits8, count),
    ];
    proof {
        assert(operands@ =~= seq![
            scalar_of(ScalarWidth::Bits64, values),
            scalar_of(ScalarWidth::Bits8, count),
        ]);
        lemma_operands_decide(OperationKind::Median, pub_key, nonce, operands@);
    }
    dispatch_operands(state, OperationKind::Median, computation_offset, pub_key, nonce, operands)
}

/// Takes the result of the `median` computation that was dispatched under
/// `computation_offset`. A delivered success comes back as the event to emit,
/// an abort as the abort signal.
pub fn median_callback(
    state: &mut ProtocolState,
    computation_offset: u64,
    definition_ref: SlotKey,
    output: &ComputationResult,
) -> (delivery: Result<Delivery<MedianEvent>, RouteError>)
    requires
        old(state).wf(),
    ensures
        delivery_of(
            *old(state),
            *final(state),
            OperationKind::Median,
            computation_offset,
            definition_ref,
            output@,
            outcome_of(delivery),
        ),
        delivery matches Ok(Delivery::Completed(event)) ==> decodes_to(
            OperationKind::Median,
            output@->output_fields,
            output@->result_nonce,
            CompletionEvent::Median(event),
        ),
{
    let routed = route_single(
        state,
        OperationKind::Median,
        computation_offset,
        definition_ref,
        output,
    );
    match routed {
        Ok(Delivery::Completed((result, nonce))) => {
            Ok(Delivery::Completed(MedianEvent { result, nonce }))
        },
        Ok(Delivery::Aborted) => Ok(Delivery::Aborted),
        Err(error) => Err(error),
    }
}

/// Registers the `weighted_average` operation with its published circuit, which
/// declares the given parameters and outputs.
pub fn init_weighted_average_comp_def(
    state: &mut ProtocolState,
    parameters: Vec<ArgumentSlotType>,
    outputs: Vec<OutputFieldType>,
) -> (result: Result<(), RegistryError>)
    requires
        old(state).wf(),
    ensures
        registration_of(
            *old(state),
            *final(state),
            OperationKind::WeightedAverage,
            published_reference(OperationKind::WeightedAverage, parameters@, outputs@),
            result,
        ),
{
    init_published(state, OperationKind::WeightedAverage, parameters, outputs)
}

/// Dispatches a `weighted_average` computation under the correlation identifier
/// `computation_offset`: the caller's key, the nonce, then the operands in
/// the order given. Never fails with `SchemaMismatch`.
pub fn weighted_average(
    state: &mut ProtocolState,
    computation_offset: u64,
    values: [u8; 32],
    count: [u8; 32],
    pub_key: [u8; 32],
    nonce: u128,
) -> (result: Result<Submission, DispatchError>)
    requires
        old(state).wf(),
    ensures
        dispatch_of(
            *old(state),
            *final(state),
            OperationKind::WeightedAverage,
            computation_offset,
            pub_key,
            nonce,
            seq![
                scalar_of(ScalarWidth::Bits64, values),
                scalar_of(ScalarWidth::Bits8, count),
            ],
            result,
        ),
        !(result matches Err(DispatchError::SchemaMismatch)),
{
    let operands = vec![
        EncryptedScalar::new(ScalarWidth::Bits64, values),
        EncryptedScalar::new(ScalarWidth::Bits8, count),
    ];
    proof {
        assert(operands@ =~= seq![
            scalar_of(ScalarWidth::Bits64, values),
            scalar_of(ScalarWidth::Bits8, count),
        ]);
        lemma_operands_decide(OperationKind::WeightedAverage, pub_key, nonce, operands@);
    }
    dispatch_operands(
        state,
        OperationKind::WeightedAverage,
        computation_offset,
        pub_key,
        nonce,
        operands,
    )
}

/// Takes the result of the `weighted_average` computation that was dispatched under
/// `computation_offset`. A delivered success comes back as the event to emit,
/// an abort as the abort signal.
pub fn weighted_average_callback(
    state: &mut ProtocolState,
    computation_offset: u64,
    definition_ref: SlotKey,
    output: &ComputationResult,
) -> (delivery: Result<Delivery<WeightedAverageEvent>, RouteError>)
    requires
        old(state).wf(),
    ensures
        delivery_of(
            *old(state),
            *final(state),
            OperationKind::WeightedAverage,
            computation_offset,
            definition_ref,
            output@,
            outcome_of(delivery),
        ),
        delivery matches Ok(Delivery::Completed(event)) ==> decodes_to(
            OperationKind::WeightedAverage,
            output@->output_fields,
            output@->result_nonce,
            CompletionEvent::WeightedAverage(event),
        ),
{
    let routed = route_single(
        state,
        OperationKind::WeightedAverage,
        computation_offset,
        definition_ref,
        output,
    );
    match routed {
        Ok(Delivery::Completed((result, nonce))) => {
            Ok(Delivery::Completed(WeightedAverageEvent { result, nonce }))
        },
        Ok(Delivery::Aborted) => Ok(Delivery::Aborted),
        Err(error) => Err(error),
    }
}

/// Registers the `credit_score` operation with its published circuit, which
/// declares the given parameters and outputs.
pub fn init_credit_score_comp_def(
    state: &mut ProtocolState,
    parameters: Vec<ArgumentSlotType>,
    outputs: Vec<OutputFieldType>,
) -> (result: Result<(), RegistryError>)
    requires
        old(state).wf(),
    ensures
        registration_of(
            *old(state),
            *final(state),
            OperationKind::CreditScore,
            published_reference(OperationKind::CreditScore, parameters@, outputs@),
            result,
        ),
{
    init_published(state, OperationKind::CreditScore, parameters, outputs)
}

/// Dispatches a `credit_score` computation under the correlation identifier
/// `computation_offset`: the caller's key, the nonce, then the operands in
/// the order given. Never fails with `SchemaMismatch`.
pub fn credit_score(
    state: &mut ProtocolState,
    computation_offset: u64,
    ciphertext_0: [u8; 32],
    ciphertext_1: [u8; 32],
    ciphertext_2: [u8; 32],
    ciphertext_3: [u8; 32],
    pub_key: [u8; 32],
    nonce: u128,
) -> (result: Result<Submission, DispatchError>)
    requires
        old(state).wf(),
    ensures
        dispatch_of(
            *old(state),
            *final(state),
            OperationKind::CreditScore,
            computation_offset,
            pub_key,
            nonce,
            seq![
                scalar_of(ScalarWidth::Bits64, ciphertext_0),
                scalar_of(ScalarWidth::Bits64, ciphertext_1),
                scalar_of(ScalarWidth::Bits8, ciphertext_2),
                scalar_of(ScalarWidth::Bits8, ciphertext_3),
            ],
            result,
        ),
        !(result matches Err(DispatchError::SchemaMismatch)),
{
    let operands = vec![
        EncryptedScalar::new(ScalarWidth::Bits64, ciphertext_0),
        EncryptedScalar::new(ScalarWidth::Bits64, ciphertext_1),
        EncryptedScalar::new(ScalarWidth::Bits8, ciphertext_2),
        EncryptedScalar::new(ScalarWidth::Bits8, ciphertext_3),
    ];
    proof {
        assert(operands@ =~= seq![
            scalar_of(ScalarWidth::Bits64, ciphertext_0),
            scalar_of(ScalarWidth::Bits64, ciphertext_1),
            scalar_of(ScalarWidth::Bits8, ciphertext_2),
            scalar_of(ScalarWidth::Bits8, ciphertext_3),
        ]);
        lemma_operands_decide(OperationKind::CreditScore, pub_key, nonce, operands@);
    }
    dispatch_operands(
        state,
        OperationKind::CreditScore,
        computation_offset,
        pub_key,
        nonce,
        operands,
    )
}

/// Takes the result of the `credit_score` computation that was dispatched under
/// `computation_offset`. A delivered success comes back as the event to emit,
/// an abort as the abort signal.
pub fn credit_score_callback(
    state: &mut ProtocolState,
    computation_offset: u64,
    definition_ref: SlotKey,
    output: &ComputationResult,
) -> (delivery: Result<Delivery<CreditScoreEvent>, RouteError>)
    requires
        old(state).wf(),
    ensures
        delivery_of(
            *old(state),
            *final(state),
            OperationKind::CreditScore,
            computation_offset,
            definition_ref,
            output@,
            outcome_of(delivery),
        ),
        delivery matches Ok(Delivery::Completed(event)) ==> decodes_to(
            OperationKind::CreditScore,
            output@->output_fields,
            output@->result_nonce,
            CompletionEvent::CreditScore(event),
        ),
{
    let routed = route_double(
        state,
        OperationKind::CreditScore,
        computation_offset,
        definition_ref,
        output,
    );
    match routed {
        Ok(Delivery::Completed((score, approved, nonce))) => {
            Ok(Delivery::Completed(CreditScoreEvent { score, approved, nonce }))
        },
        Ok(Delivery::Aborted) => Ok(Delivery::Aborted),
        Err(error) => Err(error),
    }
}

/// Registers the `health_risk` operation with its published circuit, which
/// declares the given parameters and outputs.
pub fn init_health_risk_comp_def(
    state: &mut ProtocolState,
    parameters: Vec<ArgumentSlotType>,
    outputs: Vec<OutputFieldType>,
) -> (result: Result<(), RegistryError>)
    requires
        old(state).wf(),
    ensures
        registration_of(
            *old(state),
            *final(state),
            OperationKind::HealthRisk,
            published_reference(OperationKind::HealthRisk, parameters@, outputs@),
            result,
        ),
{
    init_published(state, OperationKind::HealthRisk, parameters, outputs)
}

/// Dispatches a `health_risk` computation under the correlation identifier
/// `computation_offset`: the caller's key, the nonce, then the operands in
/// the order given. Never fails with `SchemaMismatch`.
pub fn health_risk(
    state: &mut ProtocolState,
    computation_offset: u64,
    ciphertext_0: [u8; 32],
    ciphertext_1: [u8; 32],
    ciphertext_2: [u8; 32],
    ciphertext_3: [u8; 32],
    ciphertext_4: [u8; 32],
    pub_key: [u8; 32],
    nonce: u128,
) -> (result: Result<Submission, DispatchError>)
    requires
        old(state).wf(),
    ensures
        dispatch_of(
            *old(state),
            *final(state),
            OperationKind::HealthRisk,
            computation_offset,
            pub_key,
            nonce,
            seq![
                scalar_of(ScalarWidth::Bits8, ciphertext_0),
                scalar_of(ScalarWidth::Bits8, ciphertext_1),
                scalar_of(ScalarWidth::Bits8, ciphertext_2),
                scalar_of(ScalarWidth::Bits8, ciphertext_3),
                scalar_of(ScalarWidth::Bits8, ciphertext_4),
            ],
            result,
        ),
        !(result matches Err(DispatchError::SchemaMismatch)),
{
    let operands = vec![
        EncryptedScalar::new(ScalarWidth::Bits8, ciphertext_0),
        EncryptedScalar::new(ScalarWidth::Bits8, ciphertext_1),
        EncryptedScalar::new(ScalarWidth::Bits8, ciphertext_2),
        EncryptedScalar::new(ScalarWidth::Bits8, ciphertext_3),
        EncryptedScalar::new(ScalarWidth::Bits8, ciphertext_4),
    ];
    proof {
        assert(operands@ =~= seq![
            scalar_of(ScalarWidth::Bits8, ciphertext_0),
            scalar_of(ScalarWidth::Bits8, ciphertext_1),
            scalar_of(ScalarWidth::Bits8, ciphertext_2),
            scalar_of(ScalarWidth::Bits8, ciphertext_3),
            scalar_of(ScalarWidth::Bits8, ciphertext_4),
        ]);
        lemma_operands_decide(OperationKind::HealthRisk, pub_key, nonce, operands@);
    }
    dispatch_operands(
        state,
        OperationKind::HealthRisk,
        computation_offset,
        pub_key,
        nonce,
        operands,
    )
}

/// Takes the result of the `health_risk` computation that was dispatched under
/// `computation_offset`. A delivered success comes back as the event to emit,
/// an abort as the abort signal.
pub fn health_risk_callback(
    state: &mut ProtocolState,
    computation_offset: u64,
    definition_ref: SlotKey,
    output: &ComputationResult,
) -> (delivery: Result<Delivery<HealthRiskEvent>, RouteError>)
    requires
        old(state).wf(),
    ensures
        delivery_of(
            *old(state),
            *final(state),
            OperationKind::HealthRisk,
            computation_offset,
            definition_ref,
            output@,
            outcome_of(delivery),
        ),
        delivery matches Ok(Delivery::Completed(event)) ==> decodes_to(
            OperationKind::HealthRisk,
            output@->output_fields,
            output@->result_nonce,
            CompletionEvent::HealthRisk(event),
        ),
{
    let routed = route_double(
        state,
        OperationKind::HealthRisk,
        computation_offset,
        definition_ref,
        output,
    );
    match routed {
        Ok(Delivery::Completed((risk_score, risk_category, nonce))) => {
            Ok(Delivery::Completed(HealthRiskEvent { risk_score, risk_category, nonce }))
        },
        Ok(Delivery::Aborted) => Ok(Delivery::Aborted),
        Err(error) => Err(error),
    }
}

} // verus!
