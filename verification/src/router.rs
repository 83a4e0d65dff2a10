//! The result callback router: checks a completion event against the
//! registered definition, lets each correlation identifier be delivered
//! once only, and decodes a successful result into the operation's record.

use vstd::prelude::*;
use crate::catalog::OperationKind;
use crate::dispatcher::EncryptedScalar;
use crate::events::{
    decode_matching, decodes_to, field_types, outputs_match, validate_outputs, CompletionEvent,
};
use crate::ledger::{is_terminal, ledger_advances, CorrelationLedger, Outcome, RequestState};
use crate::registry::{registered, registry_valid, DefinitionView, OperationRegistry};
use crate::slot::{slot_key_of, SlotKey};

verus! {

/// What the execution cluster reports of a computation.
#[derive(Debug, PartialEq, Eq)]
pub enum ComputationResult {
    /// The computation ran; its outputs are encrypted to the caller under the
    /// given nonce.
    Success { output_fields: Vec<EncryptedScalar>, result_nonce: u128 },
    /// The computation was aborted.
    Aborted,
}

/// A result as a mathematical value.
pub enum ResultView {
    Success { output_fields: Seq<EncryptedScalar>, result_nonce: u128 },
    Aborted,
}

impl View for ComputationResult {
    type V = ResultView;

    open spec fn view(&self) -> ResultView {
        match self {
            ComputationResult::Success { output_fields, result_nonce } => ResultView::Success {
                output_fields: output_fields@,
                result_nonce: *result_nonce,
            },
            ComputationResult::Aborted => ResultView::Aborted,
        }
    }
}

/// The event by which the execution cluster reports that a computation has
/// ended: the correlation identifier of the request, its operation, the slot
/// key of the definition that the result claims to answer, and the result.
#[derive(Debug, PartialEq, Eq)]
pub struct ComputationCompleted {
    pub correlation_id: u64,
    pub kind: OperationKind,
    pub slot_key: SlotKey,
    pub result: ComputationResult,
}

/// Why a completion event was not routed.
#[derive(Clone, Copy, Debug, PartialEq, Eq, Structural)]
pub enum RouteError {
    /// The event does not answer the definition registered for the operation:
    /// the operation is not registered, the event names another slot key, or
    /// its fields differ from the definition's output schema.
    DefinitionMismatch,
    /// A result for this correlation identifier has been delivered already.
    AlreadyDelivered,
}

/// What the operation's sinks are to be given: the decoded record for the
/// success sink, or the abort signal for the failure sink.
#[derive(Clone, Copy, Debug, PartialEq, Eq)]
pub enum Delivery<E> {
    Completed(E),
    Aborted,
}

/// What a routing answer says of the ledger: a delivered record is a
/// success, a delivered abort signal an abort, a refusal a refusal.
pub open spec fn outcome_of<E>(delivery: Result<Delivery<E>, RouteError>) -> Result<
    Outcome,
    RouteError,
> {
    match delivery {
        Ok(Delivery::Completed(_)) => Ok(Outcome::Success),
        Ok(Delivery::Aborted) => Ok(Outcome::Aborted),
        Err(error) => Err(error),
    }
}

/// How a completion event is answered:
/// - `DefinitionMismatch` where the operation is not registered or the event
///   names a slot key other than the operation's;
/// - else `AlreadyDelivered` where a result for the identifier has been
///   delivered;
/// - else, of a successful result, `DefinitionMismatch` where its fields
///   differ from the output schema, and delivery as a success where they match;
/// - else delivery as an abort.
pub open spec fn route_result(
    registry: Map<SlotKey, DefinitionView>,
    ledger: Map<(OperationKind, u64), RequestState>,
    correlation_id: u64,
    kind: OperationKind,
    definition_ref: SlotKey,
    result: ResultView,
) -> Result<Outcome, RouteError> {
    if !registered(registry, kind) || definition_ref != slot_key_of(kind) {
        Err(RouteError::DefinitionMismatch)
    } else if is_terminal(ledger, kind, correlation_id) {
        Err(RouteError::AlreadyDelivered)
    } else {
        match result {
            ResultView::Success { output_fields, result_nonce } => {
                if outputs_match(kind, output_fields) {
                    Ok(Outcome::Success)
                } else {
                    Err(RouteError::DefinitionMismatch)
                }
            },
            ResultView::Aborted => Ok(Outcome::Aborted),
        }
    }
}

/// The ledger after a completion event: where the event is delivered, the
/// identifier is terminal with the event's outcome; where it is refused,
/// nothing has changed.
pub open spec fn route_next(
    registry: Map<SlotKey, DefinitionView>,
    ledger: Map<(OperationKind, u64), RequestState>,
    correlation_id: u64,
    kind: OperationKind,
    definition_ref: SlotKey,
    result: ResultView,
) -> Map<(OperationKind, u64), RequestState> {
    match route_result(registry, ledger, correlation_id, kind, definition_ref, result) {
        Ok(outcome) => ledger.insert((kind, correlation_id), RequestState::Delivered(outcome)),
        Err(_) => ledger,
    }
}

/// Decides whether a completion event is delivered, and records the
/// delivery. The fields of a successful result have been checked against the
/// output schema when this returns `Ok(Outcome::Success)`.
pub fn route(
    registry: &OperationRegistry,
    ledger: &mut CorrelationLedger,
    correlation_id: u64,
    kind: OperationKind,
    definition_ref: SlotKey,
    result: &ComputationResult,
) -> (routed: Result<Outcome, RouteError>)
    requires
        registry.wf(),
        old(ledger).wf(),
    ensures
        final(ledger).wf(),
        routed == route_result(
            registry@,
            old(ledger)@,
            correlation_id,
            kind,
            definition_ref,
            result@,
        ),
        final(ledger)@ == route_next(
            registry@,
            old(ledger)@,
            correlation_id,
            kind,
            definition_ref,
            result@,
        ),
{
    match registry.lookup(kind) {
        Some(definition) => {
            if definition.slot_key != definition_ref {
                return Err(RouteError::DefinitionMismatch);
            }
        },
        None => {
            return Err(RouteError::DefinitionMismatch);
        },
    }
    match ledger.state_of(kind, correlation_id) {
        Some(RequestState::Delivered(_)) => {
            return Err(RouteError::AlreadyDelivered);
        },
        _ => {},
    }
    let outcome = match result {
        ComputationResult::Success { output_fields, result_nonce } => {
            if !validate_outputs(kind, output_fields) {
                return Err(RouteError::DefinitionMismatch);
            }
            Outcome::Success
        },
        ComputationResult::Aborted => Outcome::Aborted,
    };
    ledger.mark_terminal(kind, correlation_id, outcome);
    Ok(outcome)
}

/// Routes a completion event.
///
/// A delivered success comes back as the operation's decoded record, a
/// delivered abort as the abort signal; nothing of an aborted computation's
/// output is exposed. A refused event changes nothing.
pub fn on_result(
    registry: &OperationRegistry,
    ledger: &mut CorrelationLedger,
    correlation_id: u64,
    kind: OperationKind,
    definition_ref: SlotKey,
    result: &ComputationResult,
) -> (delivery: Result<Delivery<CompletionEvent>, RouteError>)
    requires
        registry.wf(),
        old(ledger).wf(),
    ensures
        final(ledger).wf(),
        outcome_of(delivery) == route_result(
            registry@,
            old(ledger)@,
            correlation_id,
            kind,
            definition_ref,
            result@,
        ),
        delivery matches Ok(Delivery::Completed(event)) ==> decodes_to(
            kind,
            result@->output_fields,
            result@->result_nonce,
            event,
        ),
        final(ledger)@ == route_next(
            registry@,
            old(ledger)@,
            correlation_id,
            kind,
            definition_ref,
            result@,
        ),
{
    match route(registry, ledger, correlation_id, kind, definition_ref, result) {
        Err(error) => Err(error),
        Ok(_) => {
            match result {
                ComputationResult::Success { output_fields, result_nonce } => Ok(
                    Delivery::Completed(decode_matching(kind, output_fields, *result_nonce)),
                ),
                ComputationResult::Aborted => Ok(Delivery::Aborted),
            }
        },
    }
}

impl ComputationCompleted {
    /// Routes the event: [`on_result`] on its parts.
    pub fn deliver(
        &self,
        registry: &OperationRegistry,
        ledger: &mut CorrelationLedger,
    ) -> (delivery: Result<Delivery<CompletionEvent>, RouteError>)
        requires
            registry.wf(),
            old(ledger).wf(),
        ensures
            final(ledger).wf(),
            outcome_of(delivery) == route_result(
                registry@,
                old(ledger)@,
                self.correlation_id,
                self.kind,
                self.slot_key,
                self.result@,
            ),
            delivery matches Ok(Delivery::Completed(event)) ==> decodes_to(
                self.kind,
                self.result@->output_fields,
                self.result@->result_nonce,
                event,
            ),
            final(ledger)@ == route_next(
                registry@,
                old(ledger)@,
                self.correlation_id,
                self.kind,
                self.slot_key,
                self.result@,
            ),
    {
        on_result(registry, ledger, self.correlation_id, self.kind, self.slot_key, &self.result)
    }
}

/// Once a result has been delivered for a correlation identifier, every
/// later event for that identifier is refused, whatever else has happened to
/// the ledger since: with `AlreadyDelivered` where it answers the registered
/// definition, and never with a delivery.
pub proof fn law_delivered_once(
    registry: Map<SlotKey, DefinitionView>,
    ledger: Map<(OperationKind, u64), RequestState>,
    correlation_id: u64,
    kind: OperationKind,
    definition_ref: SlotKey,
    result: ResultView,
    later_registry: Map<SlotKey, DefinitionView>,
    later_ledger: Map<(OperationKind, u64), RequestState>,
    later_ref: SlotKey,
    later_result: ResultView,
)
    requires
        route_result(registry, ledger, correlation_id, kind, definition_ref, result) is Ok,
        ledger_advances(
            route_next(registry, ledger, correlation_id, kind, definition_ref, result),
            later_ledger,
        ),
    ensures
        route_result(
            later_registry,
            later_ledger,
            correlation_id,
            kind,
            later_ref,
            later_result,
        ) is Err,
        registered(later_registry, kind) && later_ref == slot_key_of(kind) ==> route_result(
            later_registry,
            later_ledger,
            correlation_id,
            kind,
            later_ref,
            later_result,
        ) == Err::<Outcome, RouteError>(RouteError::AlreadyDelivered),
        route_next(later_registry, later_ledger, correlation_id, kind, later_ref, later_result)
            == later_ledger,
{
    let delivered = route_next(registry, ledger, correlation_id, kind, definition_ref, result);
    assert(delivered.contains_key((kind, correlation_id)));
}

/// An event that names a slot key other than the one under which the
/// operation's definition is registered is refused with `DefinitionMismatch`
/// and changes nothing.
pub proof fn law_mismatched_definition_is_refused(
    registry: Map<SlotKey, DefinitionView>,
    ledger: Map<(OperationKind, u64), RequestState>,
    correlation_id: u64,
    kind: OperationKind,
    definition_ref: SlotKey,
    result: ResultView,
)
    requires
        registry_valid(registry),
        registered(registry, kind),
        definition_ref != registry[slot_key_of(kind)].slot_key,
    ensures
        route_result(registry, ledger, correlation_id, kind, definition_ref, result) == Err::<
            Outcome,
            RouteError,
        >(RouteError::DefinitionMismatch),
        route_next(registry, ledger, correlation_id, kind, definition_ref, result) == ledger,
{
}

/// A result is delivered to an operation's sinks only where the operation is
/// registered, the event names the slot key of the operation's own
/// definition, and the fields of a success have the types of its output
/// schema.
pub proof fn law_delivery_answers_the_definition(
    registry: Map<SlotKey, DefinitionView>,
    ledger: Map<(OperationKind, u64), RequestState>,
    correlation_id: u64,
    kind: OperationKind,
    definition_ref: SlotKey,
    result: ResultView,
)
    requires
        registry_valid(registry),
        route_result(registry, ledger, correlation_id, kind, definition_ref, result) is Ok,
    ensures
        registry.contains_key(definition_ref),
        registry[definition_ref].kind == kind,
        registry[definition_ref].slot_key == definition_ref,
        result matches ResultView::Success { output_fields, .. } ==> field_types(output_fields)
            == registry[definition_ref].output_schema,
{
}

/// Routing an event advances the ledger: no identifier is forgotten and no
/// delivered outcome is changed. The event's own identifier is the only one
/// whose state can change.
pub proof fn law_route_advances(
    registry: Map<SlotKey, DefinitionView>,
    ledger: Map<(OperationKind, u64), RequestState>,
    correlation_id: u64,
    kind: OperationKind,
    definition_ref: SlotKey,
    result: ResultView,
)
    ensures
        ledger_advances(
            ledger,
            route_next(registry, ledger, correlation_id, kind, definition_ref, result),
        ),
        forall|other_kind: OperationKind, other_id: u64|
            (other_kind, other_id) != (kind, correlation_id) ==> (#[trigger] route_next(
                registry,
                ledger,
                correlation_id,
                kind,
                definition_ref,
                result,
            ).contains_key((other_kind, other_id))) == ledger.contains_key((other_kind, other_id)),
{
}

} // verus!
