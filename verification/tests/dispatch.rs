use flaek_mxe::catalog::{schema_for, OperationKind, ScalarWidth};
use flaek_mxe::dispatcher::{
    assemble_arguments, dispatch, dispatch_reserving, validate_operands, ArgumentSlot,
    DispatchError, EncryptedScalar, Submission, SubmissionOutcome,
};
use flaek_mxe::ledger::{CorrelationLedger, Outcome, RequestState};
use flaek_mxe::registry::{ExternalCircuitReference, OperationRegistry};
use flaek_mxe::slot::SlotKey;

const KEY: [u8; 32] = [0xAB; 32];
const NONCE: u128 = 0x0102_0304_0506_0708_090A_0B0C_0D0E_0F10;

fn reference(kind: OperationKind) -> ExternalCircuitReference {
    let schema = schema_for(kind);
    ExternalCircuitReference {
        source: format!("ipfs://{}", kind.name()),
        hash: [kind.index(); 32],
        parameters: schema.input_schema,
        outputs: schema.output_schema,
    }
}

fn registry_with(kinds: &[OperationKind]) -> OperationRegistry {
    let mut registry = OperationRegistry::new();
    for kind in kinds {
        assert_eq!(registry.register(*kind, reference(*kind)), Ok(()));
    }
    registry
}

fn wide(byte: u8) -> EncryptedScalar {
    EncryptedScalar::new(ScalarWidth::Bits64, [byte; 32])
}

fn narrow(byte: u8) -> EncryptedScalar {
    EncryptedScalar::new(ScalarWidth::Bits8, [byte; 32])
}

fn send(
    registry: &OperationRegistry,
    ledger: &mut CorrelationLedger,
    kind: OperationKind,
    correlation_id: u64,
    operands: Vec<EncryptedScalar>,
) -> Result<Submission, DispatchError> {
    dispatch(registry, ledger, kind, correlation_id, KEY, NONCE, &operands)
}

fn send_reserving(
    registry: &OperationRegistry,
    ledger: &mut CorrelationLedger,
    kind: OperationKind,
    operands: Vec<EncryptedScalar>,
) -> Result<Submission, DispatchError> {
    dispatch_reserving(registry, ledger, kind, KEY, NONCE, &operands)
}

fn two() -> Vec<EncryptedScalar> {
    vec![wide(1), wide(2)]
}

fn operands_for(kind: OperationKind) -> Vec<EncryptedScalar> {
    kind.encrypted_inputs()
        .into_iter()
        .enumerate()
        .map(|(position, width)| EncryptedScalar::new(width, [position as u8 + 1; 32]))
        .collect()
}

#[test]
fn dispatch_assembles_key_nonce_and_operands_in_order() {
    let registry = registry_with(&[OperationKind::Add]);
    let mut ledger = CorrelationLedger::new();
    let submission = send(&registry, &mut ledger, OperationKind::Add, 42, two()).unwrap();
    assert_eq!(submission.request.correlation_id, 42);
    assert_eq!(submission.request.kind, OperationKind::Add);
    assert_eq!(
        submission.request.arguments,
        vec![
            ArgumentSlot::PublicKeyMaterial(KEY),
            ArgumentSlot::PlaintextNonce(NONCE),
            ArgumentSlot::EncryptedScalar(wide(1)),
            ArgumentSlot::EncryptedScalar(wide(2)),
        ]
    );
    assert_eq!(submission.slot_key, SlotKey::for_kind(OperationKind::Add));
    assert_eq!(submission.circuit_ref, reference(OperationKind::Add));
    assert_eq!(ledger.state_of(OperationKind::Add, 42), Some(RequestState::Dispatched));
}

#[test]
fn dispatch_succeeds_for_every_operation_with_matching_operands() {
    let mut ledger = CorrelationLedger::new();
    for index in 0..28u8 {
        let kind = OperationKind::from_index(index).unwrap();
        let registry = registry_with(&[kind]);
        let operands = operands_for(kind);
        let submission = dispatch(&registry, &mut ledger, kind, 7, KEY, NONCE, &operands).unwrap();
        assert_eq!(submission.request.arguments.len(), 2 + operands.len());
        assert_eq!(submission.request.correlation_id, 7);
        assert_eq!(ledger.state_of(kind, 7), Some(RequestState::Dispatched));
    }
}

#[test]
fn unregistered_operation_is_refused() {
    let registry = registry_with(&[OperationKind::Add]);
    let mut ledger = CorrelationLedger::new();
    let result = send(&registry, &mut ledger, OperationKind::Subtract, 1, two());
    assert_eq!(result, Err(DispatchError::Unregistered));
    assert_eq!(ledger.state_of(OperationKind::Subtract, 1), None);
}

#[test]
fn unregistered_comes_before_schema_mismatch() {
    let registry = OperationRegistry::new();
    let mut ledger = CorrelationLedger::new();
    let result = send(&registry, &mut ledger, OperationKind::Add, 1, vec![]);
    assert_eq!(result, Err(DispatchError::Unregistered));
}

#[test]
fn too_few_operands_are_a_schema_mismatch() {
    let registry = registry_with(&[OperationKind::Add]);
    let mut ledger = CorrelationLedger::new();
    let result = send(&registry, &mut ledger, OperationKind::Add, 1, vec![wide(1)]);
    assert_eq!(result, Err(DispatchError::SchemaMismatch));
    let result = send(&registry, &mut ledger, OperationKind::Add, 1, vec![]);
    assert_eq!(result, Err(DispatchError::SchemaMismatch));
    assert_eq!(ledger.state_of(OperationKind::Add, 1), None);
}

#[test]
fn too_many_operands_are_a_schema_mismatch() {
    let registry = registry_with(&[OperationKind::Not]);
    let mut ledger = CorrelationLedger::new();
    let result = send(&registry, &mut ledger, OperationKind::Not, 1, vec![narrow(1), narrow(2)]);
    assert_eq!(result, Err(DispatchError::SchemaMismatch));
    assert_eq!(ledger.state_of(OperationKind::Not, 1), None);
}

#[test]
fn a_wrong_width_at_any_position_is_a_schema_mismatch() {
    let registry = registry_with(&[OperationKind::CreditScore]);
    let mut ledger = CorrelationLedger::new();
    let good = operands_for(OperationKind::CreditScore);
    for position in 0..good.len() {
        let mut bad = good.clone();
        bad[position].width = if bad[position].width == ScalarWidth::Bits64 {
            ScalarWidth::Bits8
        } else {
            ScalarWidth::Bits64
        };
        let result = send(&registry, &mut ledger, OperationKind::CreditScore, 5, bad);
        assert_eq!(result, Err(DispatchError::SchemaMismatch));
        assert_eq!(ledger.state_of(OperationKind::CreditScore, 5), None);
    }
    let mut sixteen = good.clone();
    sixteen[0].width = ScalarWidth::Bits16;
    assert_eq!(
        send(&registry, &mut ledger, OperationKind::CreditScore, 5, sixteen),
        Err(DispatchError::SchemaMismatch)
    );
    assert!(send(&registry, &mut ledger, OperationKind::CreditScore, 5, good).is_ok());
}

#[test]
fn schema_mismatch_comes_before_the_freshness_check() {
    let registry = registry_with(&[OperationKind::Add]);
    let mut ledger = CorrelationLedger::new();
    assert!(send(&registry, &mut ledger, OperationKind::Add, 9, two()).is_ok());
    let result = send(&registry, &mut ledger, OperationKind::Add, 9, vec![wide(1)]);
    assert_eq!(result, Err(DispatchError::SchemaMismatch));
}

#[test]
fn a_pending_identifier_is_a_duplicate() {
    let registry = registry_with(&[OperationKind::Add]);
    let mut ledger = CorrelationLedger::new();
    assert!(send(&registry, &mut ledger, OperationKind::Add, 9, two()).is_ok());
    let result = send(&registry, &mut ledger, OperationKind::Add, 9, vec![wide(3), wide(4)]);
    assert_eq!(result, Err(DispatchError::DuplicateCorrelationId));
    assert_eq!(ledger.state_of(OperationKind::Add, 9), Some(RequestState::Dispatched));
}

#[test]
fn a_delivered_identifier_is_a_duplicate() {
    let registry = registry_with(&[OperationKind::Add]);
    let mut ledger = CorrelationLedger::new();
    assert!(ledger.mark_terminal(OperationKind::Add, 3, Outcome::Aborted));
    let result = send(&registry, &mut ledger, OperationKind::Add, 3, two());
    assert_eq!(result, Err(DispatchError::DuplicateCorrelationId));
    assert_eq!(
        ledger.state_of(OperationKind::Add, 3),
        Some(RequestState::Delivered(Outcome::Aborted))
    );
}

#[test]
fn identifiers_are_fresh_per_operation() {
    let registry = registry_with(&[OperationKind::Add, OperationKind::Subtract]);
    let mut ledger = CorrelationLedger::new();
    assert!(send(&registry, &mut ledger, OperationKind::Add, 9, two()).is_ok());
    assert!(dispatch(
        &registry,
        &mut ledger,
        OperationKind::Subtract,
        9,
        KEY,
        NONCE,
        &vec![wide(1), wide(2)]
    )
    .is_ok());
    assert_eq!(ledger.state_of(OperationKind::Add, 9), Some(RequestState::Dispatched));
    assert_eq!(ledger.state_of(OperationKind::Subtract, 9), Some(RequestState::Dispatched));
    assert_eq!(ledger.state_of(OperationKind::Multiply, 9), None);
}

#[test]
fn no_identifier_is_handed_out_twice() {
    let registry = registry_with(&[OperationKind::Multiply]);
    let mut ledger = CorrelationLedger::new();
    let mut handed_out = Vec::new();
    for id in [0u64, 1, 2, 1, 0, u64::MAX, 2, u64::MAX, 5] {
        let result = send(&registry, &mut ledger, OperationKind::Multiply, id, two());
        match result {
            Ok(submission) => {
                assert!(!handed_out.contains(&submission.request.correlation_id));
                handed_out.push(submission.request.correlation_id);
            }
            Err(error) => {
                assert_eq!(error, DispatchError::DuplicateCorrelationId);
                assert!(handed_out.contains(&id));
            }
        }
    }
    assert_eq!(handed_out, vec![0, 1, 2, u64::MAX, 5]);
}

#[test]
fn extreme_identifiers_do_not_collide_across_operations() {
    let mut ledger = CorrelationLedger::new();
    assert!(ledger.reserve(OperationKind::Add, u64::MAX));
    assert!(ledger.reserve(OperationKind::Subtract, 0));
    assert!(ledger.reserve(OperationKind::Subtract, u64::MAX));
    assert!(ledger.reserve(OperationKind::HealthRisk, u64::MAX));
    assert!(ledger.reserve(OperationKind::Add, 0));
    assert!(!ledger.reserve(OperationKind::Add, 0));
    assert!(!ledger.reserve(OperationKind::HealthRisk, u64::MAX));
    assert_eq!(ledger.state_of(OperationKind::Multiply, 0), None);
    assert_eq!(ledger.state_of(OperationKind::CreditScore, u64::MAX), None);
}

#[test]
fn accepted_submission_yields_the_identifier() {
    let registry = registry_with(&[OperationKind::Add]);
    let mut ledger = CorrelationLedger::new();
    let submission = send(&registry, &mut ledger, OperationKind::Add, 77, two()).unwrap();
    assert_eq!(submission.conclude(SubmissionOutcome::Accepted), Ok(77));
}

#[test]
fn rejected_submission_passes_the_reason_on() {
    let registry = registry_with(&[OperationKind::Add]);
    let mut ledger = CorrelationLedger::new();
    let submission = send(&registry, &mut ledger, OperationKind::Add, 77, two()).unwrap();
    assert_eq!(
        submission.conclude(SubmissionOutcome::Rejected(6001)),
        Err(DispatchError::SubmissionRejected(6001))
    );
    assert_eq!(
        submission.conclude(SubmissionOutcome::Rejected(0)),
        Err(DispatchError::SubmissionRejected(0))
    );
    assert_eq!(
        send(&registry, &mut ledger, OperationKind::Add, 77, two()),
        Err(DispatchError::DuplicateCorrelationId)
    );
}

#[test]
fn validate_operands_checks_count_and_widths() {
    assert!(validate_operands(OperationKind::Add, &vec![wide(1), wide(2)]));
    assert!(!validate_operands(OperationKind::Add, &vec![wide(1), narrow(2)]));
    assert!(!validate_operands(OperationKind::Add, &vec![narrow(1), wide(2)]));
    assert!(!validate_operands(OperationKind::Add, &vec![wide(1)]));
    assert!(!validate_operands(OperationKind::Add, &vec![wide(1), wide(2), wide(3)]));
    assert!(validate_operands(OperationKind::Power, &vec![wide(1), narrow(2)]));
    assert!(!validate_operands(OperationKind::Power, &vec![wide(1), wide(2)]));
    assert!(validate_operands(OperationKind::IfElse, &vec![narrow(1), wide(2), wide(3)]));
    assert!(validate_operands(OperationKind::HealthRisk, &vec![narrow(0); 5]));
    assert!(!validate_operands(OperationKind::HealthRisk, &vec![narrow(0); 4]));
}

#[test]
fn assemble_arguments_of_no_operands_is_key_and_nonce() {
    assert_eq!(
        assemble_arguments(KEY, 0, &vec![]),
        vec![ArgumentSlot::PublicKeyMaterial(KEY), ArgumentSlot::PlaintextNonce(0)]
    );
    assert_eq!(
        assemble_arguments([0; 32], u128::MAX, &vec![narrow(9)]),
        vec![
            ArgumentSlot::PublicKeyMaterial([0; 32]),
            ArgumentSlot::PlaintextNonce(u128::MAX),
            ArgumentSlot::EncryptedScalar(narrow(9)),
        ]
    );
}

#[test]
fn ledger_reserve_and_mark_terminal() {
    let mut ledger = CorrelationLedger::new();
    assert_eq!(ledger.state_of(OperationKind::Add, 1), None);
    assert!(ledger.reserve(OperationKind::Add, 1));
    assert!(!ledger.reserve(OperationKind::Add, 1));
    assert_eq!(ledger.state_of(OperationKind::Add, 1), Some(RequestState::Dispatched));
    assert!(ledger.mark_terminal(OperationKind::Add, 1, Outcome::Success));
    assert_eq!(
        ledger.state_of(OperationKind::Add, 1),
        Some(RequestState::Delivered(Outcome::Success))
    );
    assert!(!ledger.mark_terminal(OperationKind::Add, 1, Outcome::Aborted));
    assert_eq!(
        ledger.state_of(OperationKind::Add, 1),
        Some(RequestState::Delivered(Outcome::Success))
    );
    assert!(!ledger.reserve(OperationKind::Add, 1));
}

#[test]
fn reserved_identifiers_count_up_from_zero() {
    let mut ledger = CorrelationLedger::new();
    assert_eq!(ledger.peek_next(OperationKind::Add), Some(0));
    assert_eq!(ledger.reserve_correlation_id(OperationKind::Add), Some(0));
    assert_eq!(ledger.reserve_correlation_id(OperationKind::Add), Some(1));
    assert_eq!(ledger.reserve_correlation_id(OperationKind::Add), Some(2));
    assert_eq!(ledger.peek_next(OperationKind::Add), Some(3));
    assert_eq!(ledger.peek_next(OperationKind::Subtract), Some(0));
    assert_eq!(ledger.reserve_correlation_id(OperationKind::Subtract), Some(0));
    assert_eq!(ledger.state_of(OperationKind::Add, 2), Some(RequestState::Dispatched));
    assert_eq!(ledger.state_of(OperationKind::Add, 3), None);
}

#[test]
fn reserved_identifiers_skip_past_chosen_ones() {
    let mut ledger = CorrelationLedger::new();
    assert!(ledger.reserve(OperationKind::Add, 10));
    assert_eq!(ledger.peek_next(OperationKind::Add), Some(11));
    assert!(ledger.reserve(OperationKind::Add, 4));
    assert_eq!(ledger.peek_next(OperationKind::Add), Some(11));
    assert_eq!(ledger.reserve_correlation_id(OperationKind::Add), Some(11));
    assert!(ledger.mark_terminal(OperationKind::Add, 20, Outcome::Success));
    assert_eq!(ledger.reserve_correlation_id(OperationKind::Add), Some(21));
    assert!(ledger.mark_terminal(OperationKind::Add, 21, Outcome::Success));
    assert_eq!(ledger.peek_next(OperationKind::Add), Some(22));
    assert_eq!(ledger.peek_next(OperationKind::Multiply), Some(0));
}

#[test]
fn the_line_ends_with_the_greatest_identifier() {
    let mut ledger = CorrelationLedger::new();
    assert!(ledger.reserve(OperationKind::Add, u64::MAX - 1));
    assert_eq!(ledger.reserve_correlation_id(OperationKind::Add), Some(u64::MAX));
    assert_eq!(ledger.peek_next(OperationKind::Add), None);
    assert_eq!(ledger.reserve_correlation_id(OperationKind::Add), None);
    assert!(ledger.reserve(OperationKind::Add, 5));
    assert_eq!(ledger.reserve_correlation_id(OperationKind::Add), None);
    assert_eq!(ledger.reserve_correlation_id(OperationKind::Subtract), Some(0));
}

#[test]
fn dispatch_reserving_hands_out_new_identifiers() {
    let registry = registry_with(&[OperationKind::Add, OperationKind::Not]);
    let mut ledger = CorrelationLedger::new();
    let mut handed_out = Vec::new();
    for round in 0..5u8 {
        let submission = dispatch_reserving(
            &registry,
            &mut ledger,
            OperationKind::Add,
            KEY,
            NONCE,
            &vec![wide(round), wide(round)],
        )
        .unwrap();
        assert!(!handed_out.contains(&submission.request.correlation_id));
        assert_eq!(
            ledger.state_of(OperationKind::Add, submission.request.correlation_id),
            Some(RequestState::Dispatched)
        );
        handed_out.push(submission.request.correlation_id);
        if round == 1 {
            assert!(send(&registry, &mut ledger, OperationKind::Add, 7, two()).is_ok());
        }
    }
    assert_eq!(handed_out, vec![0, 1, 8, 9, 10]);
    let other =
        send_reserving(&registry, &mut ledger, OperationKind::Not, vec![narrow(1)]).unwrap();
    assert_eq!(other.request.correlation_id, 0);
}

#[test]
fn dispatch_reserving_refuses_in_the_same_order() {
    let registry = registry_with(&[OperationKind::Add]);
    let mut ledger = CorrelationLedger::new();
    assert_eq!(
        send_reserving(&registry, &mut ledger, OperationKind::Not, vec![narrow(1)]),
        Err(DispatchError::Unregistered)
    );
    assert_eq!(
        send_reserving(&registry, &mut ledger, OperationKind::Add, vec![wide(1)]),
        Err(DispatchError::SchemaMismatch)
    );
    assert_eq!(ledger.peek_next(OperationKind::Add), Some(0));
    assert!(ledger.reserve(OperationKind::Add, u64::MAX));
    assert_eq!(
        send_reserving(&registry, &mut ledger, OperationKind::Not, vec![narrow(1)]),
        Err(DispatchError::Unregistered)
    );
    assert_eq!(
        send_reserving(&registry, &mut ledger, OperationKind::Add, vec![wide(1)]),
        Err(DispatchError::SchemaMismatch)
    );
    assert_eq!(
        send_reserving(&registry, &mut ledger, OperationKind::Add, vec![wide(1), wide(2)]),
        Err(DispatchError::DuplicateCorrelationId)
    );
}
