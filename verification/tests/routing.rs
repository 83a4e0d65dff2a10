use flaek_mxe::catalog::{schema_for, OperationKind, ScalarWidth};
use flaek_mxe::dispatcher::{dispatch, DispatchError, EncryptedScalar, Submission};
use flaek_mxe::events::{
    decode, nonce_to_bytes, validate_outputs, AddEvent, CompletionEvent, CreditScoreEvent,
    DivideEvent, GreaterThanEvent, HealthRiskEvent,
};
use flaek_mxe::ledger::{CorrelationLedger, Outcome, RequestState};
use flaek_mxe::registry::{ExternalCircuitReference, OperationRegistry};
use flaek_mxe::router::{on_result, route, ComputationResult, Delivery, RouteError};
use flaek_mxe::slot::SlotKey;

const KEY: [u8; 32] = [0x11; 32];

fn reference(kind: OperationKind) -> ExternalCircuitReference {
    let schema = schema_for(kind);
    ExternalCircuitReference {
        source: format!("ipfs://{}", kind.name()),
        hash: [0; 32],
        parameters: schema.input_schema,
        outputs: schema.output_schema,
    }
}

fn registry_with(kinds: &[OperationKind]) -> OperationRegistry {
    let mut registry = OperationRegistry::new();
    for kind in kinds {
        assert_eq!(registry.register(*kind, reference(*kind)), Ok(()));
    }
    registry
}

fn wide(byte: u8) -> EncryptedScalar {
    EncryptedScalar::new(ScalarWidth::Bits64, [byte; 32])
}

fn narrow(byte: u8) -> EncryptedScalar {
    EncryptedScalar::new(ScalarWidth::Bits8, [byte; 32])
}

fn submit(
    registry: &OperationRegistry,
    ledger: &mut CorrelationLedger,
    correlation_id: u64,
    nonce: u128,
) -> Result<Submission, DispatchError> {
    let operands = vec![wide(1), wide(2)];
    dispatch(registry, ledger, OperationKind::Add, correlation_id, KEY, nonce, &operands)
}

fn success(fields: Vec<EncryptedScalar>, nonce: u128) -> ComputationResult {
    ComputationResult::Success { output_fields: fields, result_nonce: nonce }
}

#[test]
fn nonce_bytes_are_little_endian() {
    assert_eq!(nonce_to_bytes(0), [0u8; 16]);
    assert_eq!(nonce_to_bytes(1), [1, 0, 0, 0, 0, 0, 0, 0, 0, 0, 0, 0, 0, 0, 0, 0]);
    assert_eq!(
        nonce_to_bytes(0x0102_0304_0506_0708_090A_0B0C_0D0E_0F10),
        [16, 15, 14, 13, 12, 11, 10, 9, 8, 7, 6, 5, 4, 3, 2, 1]
    );
    assert_eq!(nonce_to_bytes(u128::MAX), [0xFF; 16]);
    let nonce: u128 = 123456789012345678901234567890;
    assert_eq!(nonce_to_bytes(nonce), nonce.to_le_bytes());
}

#[test]
fn add_round_trip_delivers_once() {
    let registry = registry_with(&[OperationKind::Add]);
    let mut ledger = CorrelationLedger::new();
    let nonce: u128 = 987654321;
    let submission = submit(&registry, &mut ledger, 100, nonce).unwrap();
    let c = [0xC0; 32];
    let result = success(vec![EncryptedScalar::new(ScalarWidth::Bits64, c)], nonce);
    let delivery =
        on_result(&registry, &mut ledger, 100, OperationKind::Add, submission.slot_key, &result);
    assert_eq!(
        delivery,
        Ok(Delivery::Completed(CompletionEvent::Add(AddEvent {
            result: c,
            nonce: nonce.to_le_bytes(),
        })))
    );
    assert_eq!(
        ledger.state_of(OperationKind::Add, 100),
        Some(RequestState::Delivered(Outcome::Success))
    );
    let again =
        on_result(&registry, &mut ledger, 100, OperationKind::Add, submission.slot_key, &result);
    assert_eq!(again, Err(RouteError::AlreadyDelivered));
    assert_eq!(
        ledger.state_of(OperationKind::Add, 100),
        Some(RequestState::Delivered(Outcome::Success))
    );
}

#[test]
fn divide_by_encrypted_zero_is_routed_like_any_result() {
    let registry = registry_with(&[OperationKind::Divide]);
    let mut ledger = CorrelationLedger::new();
    let zero = [0u8; 32];
    let submission = dispatch(
        &registry,
        &mut ledger,
        OperationKind::Divide,
        1,
        KEY,
        5,
        &vec![wide(9), EncryptedScalar::new(ScalarWidth::Bits64, zero)],
    )
    .unwrap();
    let result = success(vec![EncryptedScalar::new(ScalarWidth::Bits64, zero)], 5);
    let delivery =
        on_result(&registry, &mut ledger, 1, OperationKind::Divide, submission.slot_key, &result);
    assert_eq!(
        delivery,
        Ok(Delivery::Completed(CompletionEvent::Divide(DivideEvent {
            result: zero,
            nonce: 5u128.to_le_bytes(),
        })))
    );
}

#[test]
fn aborted_result_reaches_the_failure_sink_without_output() {
    let registry = registry_with(&[OperationKind::Add]);
    let mut ledger = CorrelationLedger::new();
    let key = SlotKey::for_kind(OperationKind::Add);
    assert!(ledger.reserve(OperationKind::Add, 8));
    let delivery =
        on_result(&registry, &mut ledger, 8, OperationKind::Add, key, &ComputationResult::Aborted);
    assert_eq!(delivery, Ok(Delivery::Aborted));
    assert_eq!(
        ledger.state_of(OperationKind::Add, 8),
        Some(RequestState::Delivered(Outcome::Aborted))
    );
    let late = success(vec![wide(1)], 0);
    assert_eq!(
        on_result(&registry, &mut ledger, 8, OperationKind::Add, key, &late),
        Err(RouteError::AlreadyDelivered)
    );
    assert_eq!(
        on_result(&registry, &mut ledger, 8, OperationKind::Add, key, &ComputationResult::Aborted),
        Err(RouteError::AlreadyDelivered)
    );
}

#[test]
fn a_foreign_slot_key_is_a_definition_mismatch() {
    let registry = registry_with(&[OperationKind::Add, OperationKind::Subtract]);
    let mut ledger = CorrelationLedger::new();
    assert!(ledger.reserve(OperationKind::Add, 1));
    let result = success(vec![wide(1)], 0);
    let foreign = SlotKey::for_kind(OperationKind::Subtract);
    assert_eq!(
        on_result(&registry, &mut ledger, 1, OperationKind::Add, foreign, &result),
        Err(RouteError::DefinitionMismatch)
    );
    let own = SlotKey::for_kind(OperationKind::Add);
    let off_by_one = SlotKey { offset: own.offset.wrapping_add(1) };
    assert_eq!(
        on_result(&registry, &mut ledger, 1, OperationKind::Add, off_by_one, &result),
        Err(RouteError::DefinitionMismatch)
    );
    assert_eq!(
        on_result(
            &registry,
            &mut ledger,
            1,
            OperationKind::Add,
            foreign,
            &ComputationResult::Aborted
        ),
        Err(RouteError::DefinitionMismatch)
    );
    assert_eq!(ledger.state_of(OperationKind::Add, 1), Some(RequestState::Dispatched));
    assert!(on_result(&registry, &mut ledger, 1, OperationKind::Add, own, &result).is_ok());
}

#[test]
fn an_unregistered_operation_is_a_definition_mismatch() {
    let registry = registry_with(&[OperationKind::Add]);
    let mut ledger = CorrelationLedger::new();
    let result = success(vec![wide(1)], 0);
    assert_eq!(
        on_result(
            &registry,
            &mut ledger,
            1,
            OperationKind::Multiply,
            SlotKey::for_kind(OperationKind::Multiply),
            &result
        ),
        Err(RouteError::DefinitionMismatch)
    );
    assert_eq!(ledger.state_of(OperationKind::Multiply, 1), None);
}

#[test]
fn definition_mismatch_comes_before_already_delivered() {
    let registry = registry_with(&[OperationKind::Add]);
    let mut ledger = CorrelationLedger::new();
    let own = SlotKey::for_kind(OperationKind::Add);
    let result = success(vec![wide(1)], 0);
    assert!(on_result(&registry, &mut ledger, 1, OperationKind::Add, own, &result).is_ok());
    assert_eq!(
        on_result(&registry, &mut ledger, 1, OperationKind::Add, SlotKey { offset: 0 }, &result),
        Err(RouteError::DefinitionMismatch)
    );
}

#[test]
fn fields_that_differ_from_the_output_schema_are_refused() {
    let registry = registry_with(&[OperationKind::Add, OperationKind::CreditScore]);
    let mut ledger = CorrelationLedger::new();
    let add = SlotKey::for_kind(OperationKind::Add);
    for fields in [vec![], vec![narrow(1)], vec![wide(1), wide(2)]] {
        assert_eq!(
            on_result(&registry, &mut ledger, 1, OperationKind::Add, add, &success(fields, 0)),
            Err(RouteError::DefinitionMismatch)
        );
    }
    assert_eq!(ledger.state_of(OperationKind::Add, 1), None);
    let credit = SlotKey::for_kind(OperationKind::CreditScore);
    let sixteen = EncryptedScalar::new(ScalarWidth::Bits16, [1; 32]);
    for fields in [vec![sixteen], vec![narrow(2), sixteen], vec![sixteen, wide(2)]] {
        let result = success(fields, 0);
        assert_eq!(
            on_result(&registry, &mut ledger, 1, OperationKind::CreditScore, credit, &result),
            Err(RouteError::DefinitionMismatch)
        );
    }
    assert!(on_result(
        &registry,
        &mut ledger,
        1,
        OperationKind::CreditScore,
        credit,
        &success(vec![sixteen, narrow(2)], 0)
    )
    .is_ok());
}

#[test]
fn two_field_results_decode_in_declared_order() {
    let registry = registry_with(&[OperationKind::CreditScore, OperationKind::HealthRisk]);
    let mut ledger = CorrelationLedger::new();
    let score = EncryptedScalar::new(ScalarWidth::Bits16, [0x51; 32]);
    let approved = EncryptedScalar::new(ScalarWidth::Bits8, [0xA9; 32]);
    let delivery = on_result(
        &registry,
        &mut ledger,
        4,
        OperationKind::CreditScore,
        SlotKey::for_kind(OperationKind::CreditScore),
        &success(vec![score, approved], 77),
    );
    assert_eq!(
        delivery,
        Ok(Delivery::Completed(CompletionEvent::CreditScore(CreditScoreEvent {
            score: [0x51; 32],
            approved: [0xA9; 32],
            nonce: 77u128.to_le_bytes(),
        })))
    );
    let delivery = on_result(
        &registry,
        &mut ledger,
        4,
        OperationKind::HealthRisk,
        SlotKey::for_kind(OperationKind::HealthRisk),
        &success(vec![narrow(0x01), narrow(0x02)], u128::MAX),
    );
    assert_eq!(
        delivery,
        Ok(Delivery::Completed(CompletionEvent::HealthRisk(HealthRiskEvent {
            risk_score: [0x01; 32],
            risk_category: [0x02; 32],
            nonce: [0xFF; 16],
        })))
    );
}

#[test]
fn decode_gives_each_operation_its_own_event() {
    let event = decode(OperationKind::GreaterThan, &vec![narrow(3)], 9).unwrap();
    assert_eq!(
        event,
        CompletionEvent::GreaterThan(GreaterThanEvent {
            result: [3; 32],
            nonce: 9u128.to_le_bytes(),
        })
    );
    for index in 0..28u8 {
        let kind = OperationKind::from_index(index).unwrap();
        let fields: Vec<EncryptedScalar> = kind
            .output_widths()
            .into_iter()
            .enumerate()
            .map(|(position, width)| EncryptedScalar::new(width, [position as u8 + 10; 32]))
            .collect();
        assert!(validate_outputs(kind, &fields));
        assert!(decode(kind, &fields, 1).is_some());
        assert!(!validate_outputs(kind, &vec![]));
        assert_eq!(decode(kind, &vec![], 1), None);
    }
}

#[test]
fn decode_rejects_wrong_widths() {
    assert_eq!(decode(OperationKind::Add, &vec![narrow(1)], 0), None);
    assert_eq!(decode(OperationKind::GreaterThan, &vec![wide(1)], 0), None);
    assert_eq!(decode(OperationKind::Add, &vec![wide(1), wide(1)], 0), None);
    assert_eq!(decode(OperationKind::HealthRisk, &vec![narrow(1)], 0), None);
}

#[test]
fn route_records_the_outcome() {
    let registry = registry_with(&[OperationKind::Xor]);
    let mut ledger = CorrelationLedger::new();
    let key = SlotKey::for_kind(OperationKind::Xor);
    assert_eq!(
        route(&registry, &mut ledger, 1, OperationKind::Xor, key, &success(vec![narrow(1)], 0)),
        Ok(Outcome::Success)
    );
    assert_eq!(
        route(&registry, &mut ledger, 2, OperationKind::Xor, key, &ComputationResult::Aborted),
        Ok(Outcome::Aborted)
    );
    assert_eq!(
        route(&registry, &mut ledger, 1, OperationKind::Xor, key, &ComputationResult::Aborted),
        Err(RouteError::AlreadyDelivered)
    );
    assert_eq!(
        ledger.state_of(OperationKind::Xor, 1),
        Some(RequestState::Delivered(Outcome::Success))
    );
    assert_eq!(
        ledger.state_of(OperationKind::Xor, 2),
        Some(RequestState::Delivered(Outcome::Aborted))
    );
}

#[test]
fn results_for_different_identifiers_are_independent() {
    let registry = registry_with(&[OperationKind::Add]);
    let mut ledger = CorrelationLedger::new();
    let key = SlotKey::for_kind(OperationKind::Add);
    for id in [3u64, 1, 2] {
        assert!(submit(&registry, &mut ledger, id, 0).is_ok());
    }
    let seven = success(vec![wide(7)], 0);
    assert!(on_result(&registry, &mut ledger, 2, OperationKind::Add, key, &seven).is_ok());
    assert_eq!(ledger.state_of(OperationKind::Add, 1), Some(RequestState::Dispatched));
    assert_eq!(ledger.state_of(OperationKind::Add, 3), Some(RequestState::Dispatched));
    let aborted = ComputationResult::Aborted;
    assert!(on_result(&registry, &mut ledger, 3, OperationKind::Add, key, &aborted).is_ok());
    let eight = success(vec![wide(8)], 0);
    assert!(on_result(&registry, &mut ledger, 1, OperationKind::Add, key, &eight).is_ok());
    assert_eq!(
        submit(&registry, &mut ledger, 2, 0),
        Err(DispatchError::DuplicateCorrelationId)
    );
}

#[test]
fn completion_event_is_routed_by_its_parts() {
    let registry = registry_with(&[OperationKind::Sum]);
    let mut ledger = CorrelationLedger::new();
    let event = flaek_mxe::router::ComputationCompleted {
        correlation_id: 12,
        kind: OperationKind::Sum,
        slot_key: SlotKey::for_kind(OperationKind::Sum),
        result: success(vec![wide(0x55)], 3),
    };
    assert_eq!(
        event.deliver(&registry, &mut ledger),
        Ok(Delivery::Completed(CompletionEvent::Sum(flaek_mxe::events::SumEvent {
            result: [0x55; 32],
            nonce: 3u128.to_le_bytes(),
        })))
    );
    assert_eq!(event.deliver(&registry, &mut ledger), Err(RouteError::AlreadyDelivered));
    let stale = flaek_mxe::router::ComputationCompleted {
        correlation_id: 13,
        kind: OperationKind::Sum,
        slot_key: SlotKey::for_kind(OperationKind::Min),
        result: ComputationResult::Aborted,
    };
    assert_eq!(stale.deliver(&registry, &mut ledger), Err(RouteError::DefinitionMismatch));
    assert_eq!(ledger.state_of(OperationKind::Sum, 13), None);
}
