//! The request dispatcher: checks a caller's encrypted arguments against the
//! operation's schema, reserves the correlation identifier and assembles the
//! request that goes to the execution cluster.

use vstd::prelude::*;
use crate::catalog::{
    encrypted_inputs, input_schema, lemma_schema_convention, ArgumentSlotType, OperationKind,
    ScalarWidth,
};
use crate::ledger::{
    is_fresh, is_next_in_line, ledger_advances, lemma_next_in_line_is_unique, next_in_line,
    CorrelationLedger, RequestState,
};
use crate::registry::{
    registered, CircuitReferenceView, DefinitionView, ExternalCircuitReference, OperationRegistry,
};
use crate::slot::{slot_key_of, SlotKey};

verus! {

/// A ciphertext together with the width of the scalar that it encrypts.
#[derive(Clone, Copy, Debug, PartialEq, Eq)]
pub struct EncryptedScalar {
    pub width: ScalarWidth,
    pub ciphertext: [u8; 32],
}

/// One argument of a request.
#[derive(Clone, Copy, Debug, PartialEq, Eq)]
pub enum ArgumentSlot {
    /// The caller's public key, to which the result is re-encrypted.
    PublicKeyMaterial([u8; 32]),
    /// The freshness nonce of the encryption scheme.
    PlaintextNonce(u128),
    /// An encrypted operand.
    EncryptedScalar(EncryptedScalar),
}

/// A request for one computation.
#[derive(Debug, PartialEq, Eq)]
pub struct ComputationRequest {
    pub correlation_id: u64,
    pub kind: OperationKind,
    pub arguments: Vec<ArgumentSlot>,
}

/// A request as a mathematical value.
pub struct RequestView {
    pub correlation_id: u64,
    pub kind: OperationKind,
    pub arguments: Seq<ArgumentSlot>,
}

impl View for ComputationRequest {
    type V = RequestView;

    open spec fn view(&self) -> RequestView {
        RequestView {
            correlation_id: self.correlation_id,
            kind: self.kind,
            arguments: self.arguments@,
        }
    }
}

/// What is handed to the execution cluster: the request, the circuit that is
/// to run on it, and the slot key that the result must name to be routed back
/// to the operation's handler.
#[derive(Debug, PartialEq, Eq)]
pub struct Submission {
    pub request: ComputationRequest,
    pub slot_key: SlotKey,
    pub circuit_ref: ExternalCircuitReference,
}

/// A submission as a mathematical value.
pub struct SubmissionView {
    pub request: RequestView,
    pub slot_key: SlotKey,
    pub circuit_ref: CircuitReferenceView,
}

impl View for Submission {
    type V = SubmissionView;

    open spec fn view(&self) -> SubmissionView {
        SubmissionView {
            request: self.request@,
            slot_key: self.slot_key,
            circuit_ref: self.circuit_ref@,
        }
    }
}

/// Why a dispatch failed.
#[derive(Clone, Copy, Debug, PartialEq, Eq, Structural)]
pub enum DispatchError {
    /// The operation has no registered definition.
    Unregistered,
    /// The arguments differ from the operation's schema in number or width.
    SchemaMismatch,
    /// The correlation identifier has been used for this operation before.
    DuplicateCorrelationId,
    /// The execution cluster refused the submission, for the reason given.
    SubmissionRejected(u32),
}

/// The execution cluster's answer to a submission.
#[derive(Clone, Copy, Debug, PartialEq, Eq, Structural)]
pub enum SubmissionOutcome {
    Accepted,
    /// Refused, with the cluster's reason.
    Rejected(u32),
}

impl EncryptedScalar {
    /// A ciphertext of a scalar of the given width.
    pub fn new(width: ScalarWidth, ciphertext: [u8; 32]) -> (scalar: EncryptedScalar)
        ensures
            scalar == scalar_of(width, ciphertext),
    {
        EncryptedScalar { width, ciphertext }
    }
}

/// A ciphertext of a scalar of the given width.
pub open spec fn scalar_of(width: ScalarWidth, ciphertext: [u8; 32]) -> EncryptedScalar {
    EncryptedScalar { width, ciphertext }
}

/// The type of an argument.
pub open spec fn slot_type_of(slot: ArgumentSlot) -> ArgumentSlotType {
    match slot {
        ArgumentSlot::PublicKeyMaterial(_) => ArgumentSlotType::PublicKeyMaterial,
        ArgumentSlot::PlaintextNonce(_) => ArgumentSlotType::PlaintextNonce,
        ArgumentSlot::EncryptedScalar(scalar) => ArgumentSlotType::EncryptedScalar(scalar.width),
    }
}

/// The types of a list of arguments.
pub open spec fn slot_types(slots: Seq<ArgumentSlot>) -> Seq<ArgumentSlotType> {
    slots.map_values(|slot: ArgumentSlot| slot_type_of(slot))
}

/// The argument list of a request: the caller's key, the nonce, then the
/// encrypted operands in the order given.
pub open spec fn assemble(
    caller_pubkey: [u8; 32],
    nonce: u128,
    encrypted_args: Seq<EncryptedScalar>,
) -> Seq<ArgumentSlot> {
    seq![ArgumentSlot::PublicKeyMaterial(caller_pubkey), ArgumentSlot::PlaintextNonce(nonce)]
        + encrypted_args.map_values(|scalar: EncryptedScalar| ArgumentSlot::EncryptedScalar(scalar))
}

/// Whether a list of arguments has exactly the types of the operation's input
/// schema, slot by slot.
pub open spec fn arguments_match(kind: OperationKind, arguments: Seq<ArgumentSlot>) -> bool {
    slot_types(arguments) == input_schema(kind)
}

/// Whether the encrypted operands are as many as the operation takes and each
/// has the width of its slot.
pub open spec fn operands_match(kind: OperationKind, encrypted_args: Seq<EncryptedScalar>) -> bool {
    &&& encrypted_args.len() == encrypted_inputs(kind).len()
    &&& forall|i: int|
        0 <= i < encrypted_args.len() ==> (#[trigger] encrypted_args[i]).width == encrypted_inputs(
            kind,
        )[i]
}

/// The assembled argument list matches the schema exactly when the operands
/// match the operation's encrypted inputs: the two leading slots always do.
pub proof fn lemma_operands_decide(
    kind: OperationKind,
    caller_pubkey: [u8; 32],
    nonce: u128,
    encrypted_args: Seq<EncryptedScalar>,
)
    ensures
        arguments_match(kind, assemble(caller_pubkey, nonce, encrypted_args)) <==> operands_match(
            kind,
            encrypted_args,
        ),
{
    lemma_schema_convention(kind);
    let arguments = assemble(caller_pubkey, nonce, encrypted_args);
    let types = slot_types(arguments);
    let schema = input_schema(kind);
    assert(arguments.len() == 2 + encrypted_args.len());
    if operands_match(kind, encrypted_args) {
        assert forall|i: int| 0 <= i < types.len() implies types[i] == schema[i] by {
            if i >= 2 {
                assert(arguments[i] == ArgumentSlot::EncryptedScalar(encrypted_args[i - 2]));
            }
        }
        assert(types =~= schema);
    }
    if types == schema {
        assert forall|i: int| 0 <= i < encrypted_args.len() implies (
        #[trigger] encrypted_args[i]).width == encrypted_inputs(kind)[i] by {
            assert(arguments[i + 2] == ArgumentSlot::EncryptedScalar(encrypted_args[i]));
            assert(types[i + 2] == schema[i + 2]);
        }
    }
}

/// What a dispatch answers:
/// - `Unregistered` where the operation has no definition;
/// - else `SchemaMismatch` where the assembled arguments differ from the
///   operation's input schema;
/// - else `DuplicateCorrelationId` where the identifier is not fresh;
/// - else the submission: the request with the assembled arguments, the
///   operation's slot key and the circuit of its definition.
pub open spec fn dispatch_result(
    registry: Map<SlotKey, DefinitionView>,
    ledger: Map<(OperationKind, u64), RequestState>,
    kind: OperationKind,
    correlation_id: u64,
    caller_pubkey: [u8; 32],
    nonce: u128,
    encrypted_args: Seq<EncryptedScalar>,
) -> Result<SubmissionView, DispatchError> {
    let arguments = assemble(caller_pubkey, nonce, encrypted_args);
    if !registered(registry, kind) {
        Err(DispatchError::Unregistered)
    } else if !arguments_match(kind, arguments) {
        Err(DispatchError::SchemaMismatch)
    } else if ledger.contains_key((kind, correlation_id)) {
        Err(DispatchError::DuplicateCorrelationId)
    } else {
        Ok(
            SubmissionView {
                request: RequestView { correlation_id, kind, arguments },
                slot_key: slot_key_of(kind),
                circuit_ref: registry[slot_key_of(kind)].circuit_ref,
            },
        )
    }
}

/// The ledger after a dispatch: on success the identifier is recorded as
/// dispatched, on failure nothing has changed.
pub open spec fn dispatch_next(
    registry: Map<SlotKey, DefinitionView>,
    ledger: Map<(OperationKind, u64), RequestState>,
    kind: OperationKind,
    correlation_id: u64,
    caller_pubkey: [u8; 32],
    nonce: u128,
    encrypted_args: Seq<EncryptedScalar>,
) -> Map<(OperationKind, u64), RequestState> {
    if dispatch_result(
        registry,
        ledger,
        kind,
        correlation_id,
        caller_pubkey,
        nonce,
        encrypted_args,
    ) is Ok {
        ledger.insert((kind, correlation_id), RequestState::Dispatched)
    } else {
        ledger
    }
}

/// What a dispatch under a reserved identifier answers: with an identifier
/// next in line, what a dispatch under that identifier answers; with none
/// left, `Unregistered` or `SchemaMismatch` as a dispatch would, and else
/// `DuplicateCorrelationId`.
pub open spec fn reserving_result(
    registry: Map<SlotKey, DefinitionView>,
    ledger: Map<(OperationKind, u64), RequestState>,
    kind: OperationKind,
    caller_pubkey: [u8; 32],
    nonce: u128,
    encrypted_args: Seq<EncryptedScalar>,
) -> Result<SubmissionView, DispatchError> {
    match next_in_line(ledger, kind) {
        Some(correlation_id) => dispatch_result(
            registry,
            ledger,
            kind,
            correlation_id,
            caller_pubkey,
            nonce,
            encrypted_args,
        ),
        None => {
            if !registered(registry, kind) {
                Err(DispatchError::Unregistered)
            } else if !arguments_match(kind, assemble(caller_pubkey, nonce, encrypted_args)) {
                Err(DispatchError::SchemaMismatch)
            } else {
                Err(DispatchError::DuplicateCorrelationId)
            }
        },
    }
}

/// The ledger after a dispatch under a reserved identifier: on success the
/// identifier is recorded as dispatched, on failure nothing has changed.
pub open spec fn reserving_next(
    registry: Map<SlotKey, DefinitionView>,
    ledger: Map<(OperationKind, u64), RequestState>,
    kind: OperationKind,
    caller_pubkey: [u8; 32],
    nonce: u128,
    encrypted_args: Seq<EncryptedScalar>,
) -> Map<(OperationKind, u64), RequestState> {
    match reserving_result(registry, ledger, kind, caller_pubkey, nonce, encrypted_args) {
        Ok(submission) => ledger.insert(
            (kind, submission.request.correlation_id),
            RequestState::Dispatched,
        ),
        Err(_) => ledger,
    }
}

/// The answer of a dispatch with its submission taken as a mathematical
/// value.
pub open spec fn viewed(result: Result<Submission, DispatchError>) -> Result<
    SubmissionView,
    DispatchError,
> {
    match result {
        Ok(submission) => Ok(submission@),
        Err(error) => Err(error),
    }
}

/// What the caller of a dispatch is told once the cluster has answered: the
/// correlation identifier where it accepted, its reason where it refused.
pub open spec fn conclusion(correlation_id: u64, outcome: SubmissionOutcome) -> Result<
    u64,
    DispatchError,
> {
    match outcome {
        SubmissionOutcome::Accepted => Ok(correlation_id),
        SubmissionOutcome::Rejected(reason) => Err(DispatchError::SubmissionRejected(reason)),
    }
}

/// Whether the operands are as many as the operation takes and each has the
/// width of its slot.
pub fn validate_operands(kind: OperationKind, encrypted_args: &Vec<EncryptedScalar>) -> (valid:
    bool)
    ensures
        valid == operands_match(kind, encrypted_args@),
{
    let widths = kind.encrypted_inputs();
    if encrypted_args.len() != widths.len() {
        return false;
    }
    let mut i: usize = 0;
    while i < encrypted_args.len()
        invariant
            i <= encrypted_args.len(),
            encrypted_args.len() == widths.len(),
            widths@ == encrypted_inputs(kind),
            forall|j: int| 0 <= j < i ==> (#[trigger] encrypted_args@[j]).width == widths@[j],
        decreases encrypted_args.len() - i,
    {
        if encrypted_args[i].width != widths[i] {
            return false;
        }
        i = i + 1;
    }
    true
}

/// Assembles the argument list of a request: the caller's key, the nonce,
/// then the encrypted operands in the order given.
pub fn assemble_arguments(
    caller_pubkey: [u8; 32],
    nonce: u128,
    encrypted_args: &Vec<EncryptedScalar>,
) -> (arguments: Vec<ArgumentSlot>)
    ensures
        arguments@ == assemble(caller_pubkey, nonce, encrypted_args@),
{
    let mut arguments: Vec<ArgumentSlot> = Vec::new();
    arguments.push(ArgumentSlot::PublicKeyMaterial(caller_pubkey));
    arguments.push(ArgumentSlot::PlaintextNonce(nonce));
    let mut i: usize = 0;
    while i < encrypted_args.len()
        invariant
            i <= encrypted_args.len(),
            arguments@ =~= assemble(caller_pubkey, nonce, encrypted_args@).take(2 + i),
        decreases encrypted_args.len() - i,
    {
        arguments.push(ArgumentSlot::EncryptedScalar(encrypted_args[i]));
        i = i + 1;
    }
    assert(assemble(caller_pubkey, nonce, encrypted_args@).take(2 + encrypted_args.len())
        =~= assemble(caller_pubkey, nonce, encrypted_args@));
    arguments
}

/// Decides a dispatch.
///
/// On success the correlation identifier is recorded as dispatched and the
/// submission for the execution cluster is returned. On failure the ledger is
/// unchanged and there is nothing to submit.
pub fn dispatch(
    registry: &OperationRegistry,
    ledger: &mut CorrelationLedger,
    kind: OperationKind,
    correlation_id: u64,
    caller_pubkey: [u8; 32],
    nonce: u128,
    encrypted_args: &Vec<EncryptedScalar>,
) -> (result: Result<Submission, DispatchError>)
    requires
        registry.wf(),
        old(ledger).wf(),
    ensures
        final(ledger).wf(),
        viewed(result) == dispatch_result(
            registry@,
            old(ledger)@,
            kind,
            correlation_id,
            caller_pubkey,
            nonce,
            encrypted_args@,
        ),
        final(ledger)@ == dispatch_next(
            registry@,
            old(ledger)@,
            kind,
            correlation_id,
            caller_pubkey,
            nonce,
            encrypted_args@,
        ),
{
    proof {
        lemma_operands_decide(kind, caller_pubkey, nonce, encrypted_args@);
    }
    let definition = match registry.lookup(kind) {
        Some(definition) => definition,
        None => {
            return Err(DispatchError::Unregistered);
        },
    };
    if !validate_operands(kind, encrypted_args) {
        return Err(DispatchError::SchemaMismatch);
    }
    if !ledger.reserve(kind, correlation_id) {
        return Err(DispatchError::DuplicateCorrelationId);
    }
    let request = ComputationRequest {
        correlation_id,
        kind,
        arguments: assemble_arguments(caller_pubkey, nonce, encrypted_args),
    };
    Ok(
        Submission {
            request,
            slot_key: definition.slot_key,
            circuit_ref: definition.circuit_ref.duplicate(),
        },
    )
}

/// Decides a dispatch under the operation's next identifier in line, which
/// it reserves.
///
/// On success the identifier is recorded as dispatched and the submission for
/// the execution cluster is returned. On failure the ledger is unchanged and
/// there is nothing to submit.
pub fn dispatch_reserving(
    registry: &OperationRegistry,
    ledger: &mut CorrelationLedger,
    kind: OperationKind,
    caller_pubkey: [u8; 32],
    nonce: u128,
    encrypted_args: &Vec<EncryptedScalar>,
) -> (result: Result<Submission, DispatchError>)
    requires
        registry.wf(),
        old(ledger).wf(),
    ensures
        final(ledger).wf(),
        viewed(result) == reserving_result(
            registry@,
            old(ledger)@,
            kind,
            caller_pubkey,
            nonce,
            encrypted_args@,
        ),
        final(ledger)@ == reserving_next(
            registry@,
            old(ledger)@,
            kind,
            caller_pubkey,
            nonce,
            encrypted_args@,
        ),
{
    proof {
        lemma_operands_decide(kind, caller_pubkey, nonce, encrypted_args@);
    }
    match ledger.peek_next(kind) {
        Some(correlation_id) => dispatch(
            registry,
            ledger,
            kind,
            correlation_id,
            caller_pubkey,
            nonce,
            encrypted_args,
        ),
        None => {
            if !registry.is_registered(kind) {
                Err(DispatchError::Unregistered)
            } else if !validate_operands(kind, encrypted_args) {
                Err(DispatchError::SchemaMismatch)
            } else {
                Err(DispatchError::DuplicateCorrelationId)
            }
        },
    }
}

impl Submission {
    /// What the caller of the dispatch is told once the cluster has answered
    /// the submission. A refusal is passed on as it came; the correlation
    /// identifier stays recorded, so a retry takes a new one.
    pub fn conclude(&self, outcome: SubmissionOutcome) -> (result: Result<u64, DispatchError>)
        ensures
            result == conclusion(self.request.correlation_id, outcome),
    {
        match outcome {
            SubmissionOutcome::Accepted => Ok(self.request.correlation_id),
            SubmissionOutcome::Rejected(reason) => Err(DispatchError::SubmissionRejected(reason)),
        }
    }
}

/// A dispatch succeeds exactly when the operation is registered, the
/// operands match its encrypted inputs and the identifier is fresh; the
/// identifier that it hands out is the one it was given, and it is recorded
/// from then on.
pub proof fn law_dispatch_succeeds(
    registry: Map<SlotKey, DefinitionView>,
    ledger: Map<(OperationKind, u64), RequestState>,
    kind: OperationKind,
    correlation_id: u64,
    caller_pubkey: [u8; 32],
    nonce: u128,
    encrypted_args: Seq<EncryptedScalar>,
)
    ensures
        dispatch_result(
            registry,
            ledger,
            kind,
            correlation_id,
            caller_pubkey,
            nonce,
            encrypted_args,
        ) is Ok <==> registered(registry, kind) && operands_match(kind, encrypted_args) && is_fresh(
            ledger,
            kind,
            correlation_id,
        ),
        dispatch_result(
            registry,
            ledger,
            kind,
            correlation_id,
            caller_pubkey,
            nonce,
            encrypted_args,
        ) matches Ok(submission) ==> submission.request.correlation_id == correlation_id
            && !is_fresh(
            dispatch_next(
                registry,
                ledger,
                kind,
                correlation_id,
                caller_pubkey,
                nonce,
                encrypted_args,
            ),
            kind,
            correlation_id,
        ),
{
    lemma_operands_decide(kind, caller_pubkey, nonce, encrypted_args);
}

/// No correlation identifier is handed out twice for one operation: after a
/// successful dispatch, whatever else has happened to the ledger since, a
/// dispatch for the same operation that succeeds has another identifier.
pub proof fn law_identifiers_never_repeat(
    registry: Map<SlotKey, DefinitionView>,
    ledger: Map<(OperationKind, u64), RequestState>,
    kind: OperationKind,
    correlation_id: u64,
    caller_pubkey: [u8; 32],
    nonce: u128,
    encrypted_args: Seq<EncryptedScalar>,
    later_registry: Map<SlotKey, DefinitionView>,
    later_ledger: Map<(OperationKind, u64), RequestState>,
    later_id: u64,
    later_pubkey: [u8; 32],
    later_nonce: u128,
    later_args: Seq<EncryptedScalar>,
)
    requires
        dispatch_result(
            registry,
            ledger,
            kind,
            correlation_id,
            caller_pubkey,
            nonce,
            encrypted_args,
        ) is Ok,
        ledger_advances(
            dispatch_next(
                registry,
                ledger,
                kind,
                correlation_id,
                caller_pubkey,
                nonce,
                encrypted_args,
            ),
            later_ledger,
        ),
        dispatch_result(
            later_registry,
            later_ledger,
            kind,
            later_id,
            later_pubkey,
            later_nonce,
            later_args,
        ) is Ok,
    ensures
        later_id != correlation_id,
{
    let recorded = dispatch_next(
        registry,
        ledger,
        kind,
        correlation_id,
        caller_pubkey,
        nonce,
        encrypted_args,
    );
    assert(recorded.contains_key((kind, correlation_id)));
}

/// A dispatch under a reserved identifier is a dispatch under an identifier
/// that is fresh; and where the ledger has an identifier next in line, it
/// succeeds for every registered operation with matching operands.
pub proof fn law_reserved_identifier_is_new(
    registry: Map<SlotKey, DefinitionView>,
    ledger: Map<(OperationKind, u64), RequestState>,
    kind: OperationKind,
    caller_pubkey: [u8; 32],
    nonce: u128,
    encrypted_args: Seq<EncryptedScalar>,
)
    ensures
        reserving_result(registry, ledger, kind, caller_pubkey, nonce, encrypted_args) matches Ok(
            submission,
        ) ==> is_fresh(ledger, kind, submission.request.correlation_id) && dispatch_result(
            registry,
            ledger,
            kind,
            submission.request.correlation_id,
            caller_pubkey,
            nonce,
            encrypted_args,
        ) == Ok::<SubmissionView, DispatchError>(submission) && reserving_next(
            registry,
            ledger,
            kind,
            caller_pubkey,
            nonce,
            encrypted_args,
        ) == dispatch_next(
            registry,
            ledger,
            kind,
            submission.request.correlation_id,
            caller_pubkey,
            nonce,
            encrypted_args,
        ),
        forall|next: u64|
            is_next_in_line(ledger, kind, Some(next)) && registered(registry, kind)
                && operands_match(kind, encrypted_args) ==> (#[trigger] dispatch_result(
                registry,
                ledger,
                kind,
                next,
                caller_pubkey,
                nonce,
                encrypted_args,
            )) is Ok && reserving_result(
                registry,
                ledger,
                kind,
                caller_pubkey,
                nonce,
                encrypted_args,
            ) == dispatch_result(registry, ledger, kind, next, caller_pubkey, nonce, encrypted_args),
{
    lemma_operands_decide(kind, caller_pubkey, nonce, encrypted_args);
    assert forall|next: u64|
        is_next_in_line(ledger, kind, Some(next)) && registered(registry, kind) && operands_match(
            kind,
            encrypted_args,
        ) implies (#[trigger] dispatch_result(
        registry,
        ledger,
        kind,
        next,
        caller_pubkey,
        nonce,
        encrypted_args,
    )) is Ok && reserving_result(registry, ledger, kind, caller_pubkey, nonce, encrypted_args)
        == dispatch_result(registry, ledger, kind, next, caller_pubkey, nonce, encrypted_args) by {
        lemma_next_in_line_is_unique(ledger, kind, Some(next));
    }
}

/// Operands that differ from a registered operation's encrypted inputs, in
/// number or in the width at any position, are refused with `SchemaMismatch`:
/// nothing is recorded and there is nothing to submit.
pub proof fn law_malformed_operands_are_refused(
    registry: Map<SlotKey, DefinitionView>,
    ledger: Map<(OperationKind, u64), RequestState>,
    kind: OperationKind,
    correlation_id: u64,
    caller_pubkey: [u8; 32],
    nonce: u128,
    encrypted_args: Seq<EncryptedScalar>,
)
    requires
        registered(registry, kind),
        !operands_match(kind, encrypted_args),
    ensures
        dispatch_result(
            registry,
            ledger,
            kind,
            correlation_id,
            caller_pubkey,
            nonce,
            encrypted_args,
        ) == Err::<SubmissionView, DispatchError>(DispatchError::SchemaMismatch),
        dispatch_next(registry, ledger, kind, correlation_id, caller_pubkey, nonce, encrypted_args)
            == ledger,
{
    lemma_operands_decide(kind, caller_pubkey, nonce, encrypted_args);
}

/// A well-formed dispatch whose identifier the ledger already holds for the
/// operation, pending or delivered, is refused with `DuplicateCorrelationId`:
/// nothing is recorded and there is nothing to submit.
pub proof fn law_used_identifier_is_refused(
    registry: Map<SlotKey, DefinitionView>,
    ledger: Map<(OperationKind, u64), RequestState>,
    kind: OperationKind,
    correlation_id: u64,
    caller_pubkey: [u8; 32],
    nonce: u128,
    encrypted_args: Seq<EncryptedScalar>,
)
    requires
        registered(registry, kind),
        operands_match(kind, encrypted_args),
        !is_fresh(ledger, kind, correlation_id),
    ensures
        dispatch_result(
            registry,
            ledger,
            kind,
            correlation_id,
            caller_pubkey,
            nonce,
            encrypted_args,
        ) == Err::<SubmissionView, DispatchError>(DispatchError::DuplicateCorrelationId),
        dispatch_next(registry, ledger, kind, correlation_id, caller_pubkey, nonce, encrypted_args)
            == ledger,
{
    lemma_operands_decide(kind, caller_pubkey, nonce, encrypted_args);
}

/// A dispatch advances the ledger: no identifier is forgotten and no
/// delivered outcome is changed.
pub proof fn law_dispatch_advances(
    registry: Map<SlotKey, DefinitionView>,
    ledger: Map<(OperationKind, u64), RequestState>,
    kind: OperationKind,
    correlation_id: u64,
    caller_pubkey: [u8; 32],
    nonce: u128,
    encrypted_args: Seq<EncryptedScalar>,
)
    ensures
        ledger_advances(
            ledger,
            dispatch_next(
                registry,
                ledger,
                kind,
                correlation_id,
                caller_pubkey,
                nonce,
                encrypted_args,
            ),
        ),
{
}

} // verus!
