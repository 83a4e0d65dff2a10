//! The typed records into which the results of completed computations are
//! decoded, one per operation.

use vstd::prelude::*;
use vstd::bytes::{spec_u128_to_le_bytes, u128_to_le_bytes};
use crate::catalog::{output_schema, output_widths, OperationKind, OutputFieldType};
use crate::dispatcher::EncryptedScalar;

verus! {

/// The encrypted sum of a completed `add` computation.
#[derive(Clone, Copy, Debug, PartialEq, Eq)]
pub struct AddEvent {
    pub result: [u8; 32],
    pub nonce: [u8; 16],
}

/// The encrypted difference of a completed `subtract` computation.
#[derive(Clone, Copy, Debug, PartialEq, Eq)]
pub struct SubtractEvent {
    pub result: [u8; 32],
    pub nonce: [u8; 16],
}

/// The encrypted product of a completed `multiply` computation.
#[derive(Clone, Copy, Debug, PartialEq, Eq)]
pub struct MultiplyEvent {
    pub result: [u8; 32],
    pub nonce: [u8; 16],
}

/// The encrypted quotient of a completed `divide` computation.
#[derive(Clone, Copy, Debug, PartialEq, Eq)]
pub struct DivideEvent {
    pub result: [u8; 32],
    pub nonce: [u8; 16],
}

/// The encrypted remainder of a completed `modulo` computation.
#[derive(Clone, Copy, Debug, PartialEq, Eq)]
pub struct ModuloEvent {
    pub result: [u8; 32],
    pub nonce: [u8; 16],
}

/// The encrypted distance of a completed `abs_diff` computation.
#[derive(Clone, Copy, Debug, PartialEq, Eq)]
pub struct AbsDiffEvent {
    pub result: [u8; 32],
    pub nonce: [u8; 16],
}

/// The encrypted power of a completed `power` computation.
#[derive(Clone, Copy, Debug, PartialEq, Eq)]
pub struct PowerEvent {
    pub result: [u8; 32],
    pub nonce: [u8; 16],
}

/// The encrypted comparison of a completed `greater_than` computation.
#[derive(Clone, Copy, Debug, PartialEq, Eq)]
pub struct GreaterThanEvent {
    pub result: [u8; 32],
    pub nonce: [u8; 16],
}

/// The encrypted comparison of a completed `less_than` computation.
#[derive(Clone, Copy, Debug, PartialEq, Eq)]
pub struct LessThanEvent {
    pub result: [u8; 32],
    pub nonce: [u8; 16],
}

/// The encrypted comparison of a completed `equal` computation.
#[derive(Clone, Copy, Debug, PartialEq, Eq)]
pub struct EqualEvent {
    pub result: [u8; 32],
    pub nonce: [u8; 16],
}

/// The encrypted comparison of a completed `greater_equal` computation.
#[derive(Clone, Copy, Debug, PartialEq, Eq)]
pub struct GreaterEqualEvent {
    pub result: [u8; 32],
    pub nonce: [u8; 16],
}

/// The encrypted comparison of a completed `less_equal` computation.
#[derive(Clone, Copy, Debug, PartialEq, Eq)]
pub struct LessEqualEvent {
    pub result: [u8; 32],
    pub nonce: [u8; 16],
}

/// The encrypted threshold check of a completed `meets_threshold` computation.
#[derive(Clone, Copy, Debug, PartialEq, Eq)]
pub struct MeetsThresholdEvent {
    pub result: [u8; 32],
    pub nonce: [u8; 16],
}

/// The encrypted range check of a completed `in_range` computation.
#[derive(Clone, Copy, Debug, PartialEq, Eq)]
pub struct InRangeEvent {
    pub result: [u8; 32],
    pub nonce: [u8; 16],
}

/// The encrypted conjunction of a completed `and` computation.
#[derive(Clone, Copy, Debug, PartialEq, Eq)]
pub struct AndEvent {
    pub result: [u8; 32],
    pub nonce: [u8; 16],
}

/// The encrypted disjunction of a completed `or` computation.
#[derive(Clone, Copy, Debug, PartialEq, Eq)]
pub struct OrEvent {
    pub result: [u8; 32],
    pub nonce: [u8; 16],
}

/// The encrypted exclusive disjunction of a completed `xor` computation.
#[derive(Clone, Copy, Debug, PartialEq, Eq)]
pub struct XorEvent {
    pub result: [u8; 32],
    pub nonce: [u8; 16],
}

/// The encrypted negation of a completed `not` computation.
#[derive(Clone, Copy, Debug, PartialEq, Eq)]
pub struct NotEvent {
    pub result: [u8; 32],
    pub nonce: [u8; 16],
}

/// The encrypted selection of a completed `if_else` computation.
#[derive(Clone, Copy, Debug, PartialEq, Eq)]
pub struct IfElseEvent {
    pub result: [u8; 32],
    pub nonce: [u8; 16],
}

/// The encrypted ballot of a completed `vote_tally` computation.
#[derive(Clone, Copy, Debug, PartialEq, Eq)]
pub struct VoteTallyEvent {
    pub result: [u8; 32],
    pub nonce: [u8; 16],
}

/// The encrypted mean of a completed `average` computation.
#[derive(Clone, Copy, Debug, PartialEq, Eq)]
pub struct AverageEvent {
    pub result: [u8; 32],
    pub nonce: [u8; 16],
}

/// The encrypted sum of a completed `sum` computation.
#[derive(Clone, Copy, Debug, PartialEq, Eq)]
pub struct SumEvent {
    pub result: [u8; 32],
    pub nonce: [u8; 16],
}

/// The encrypted least value of a completed `min` computation.
#[derive(Clone, Copy, Debug, PartialEq, Eq)]
pub struct MinEvent {
    pub result: [u8; 32],
    pub nonce: [u8; 16],
}

/// The encrypted greatest value of a completed `max` computation.
#[derive(Clone, Copy, Debug, PartialEq, Eq)]
pub struct MaxEvent {
    pub result: [u8; 32],
    pub nonce: [u8; 16],
}

/// The encrypted median of a completed `median` computation.
#[derive(Clone, Copy, Debug, PartialEq, Eq)]
pub struct MedianEvent {
    pub result: [u8; 32],
    pub nonce: [u8; 16],
}

/// The encrypted weighted mean of a completed `weighted_average` computation.
#[derive(Clone, Copy, Debug, PartialEq, Eq)]
pub struct WeightedAverageEvent {
    pub result: [u8; 32],
    pub nonce: [u8; 16],
}

/// The encrypted score and approval of a completed `credit_score`
/// computation.
#[derive(Clone, Copy, Debug, PartialEq, Eq)]
pub struct CreditScoreEvent {
    pub score: [u8; 32],
    pub approved: [u8; 32],
    pub nonce: [u8; 16],
}

/// The encrypted risk score and risk category of a completed `health_risk`
/// computation.
#[derive(Clone, Copy, Debug, PartialEq, Eq)]
pub struct HealthRiskEvent {
    pub risk_score: [u8; 32],
    pub risk_category: [u8; 32],
    pub nonce: [u8; 16],
}

/// The typed record of a completed computation of any operation.
#[derive(Clone, Copy, Debug, PartialEq, Eq)]
pub enum CompletionEvent {
    Add(AddEvent),
    Subtract(SubtractEvent),
    Multiply(MultiplyEvent),
    Divide(DivideEvent),
    Modulo(ModuloEvent),
    AbsDiff(AbsDiffEvent),
    Power(PowerEvent),
    GreaterThan(GreaterThanEvent),
    LessThan(LessThanEvent),
    Equal(EqualEvent),
    GreaterEqual(GreaterEqualEvent),
    LessEqual(LessEqualEvent),
    MeetsThreshold(MeetsThresholdEvent),
    InRange(InRangeEvent),
    And(AndEvent),
    Or(OrEvent),
    Xor(XorEvent),
    Not(NotEvent),
    IfElse(IfElseEvent),
    VoteTally(VoteTallyEvent),
    Average(AverageEvent),
    Sum(SumEvent),
    Min(MinEvent),
    Max(MaxEvent),
    Median(MedianEvent),
    WeightedAverage(WeightedAverageEvent),
    CreditScore(CreditScoreEvent),
    HealthRisk(HealthRiskEvent),
}

/// The operation whose result an event carries.
pub open spec fn event_kind(event: CompletionEvent) -> OperationKind {
    match event {
        CompletionEvent::Add(_) => OperationKind::Add,
        CompletionEvent::Subtract(_) => OperationKind::Subtract,
        CompletionEvent::Multiply(_) => OperationKind::Multiply,
        CompletionEvent::Divide(_) => OperationKind::Divide,
        CompletionEvent::Modulo(_) => OperationKind::Modulo,
        CompletionEvent::AbsDiff(_) => OperationKind::AbsDiff,
        CompletionEvent::Power(_) => OperationKind::Power,
        CompletionEvent::GreaterThan(_) => OperationKind::GreaterThan,
        CompletionEvent::LessThan(_) => OperationKind::LessThan,
        CompletionEvent::Equal(_) => OperationKind::Equal,
        CompletionEvent::GreaterEqual(_) => OperationKind::GreaterEqual,
        CompletionEvent::LessEqual(_) => OperationKind::LessEqual,
        CompletionEvent::MeetsThreshold(_) => OperationKind::MeetsThreshold,
        CompletionEvent::InRange(_) => OperationKind::InRange,
        CompletionEvent::And(_) => OperationKind::And,
        CompletionEvent::Or(_) => OperationKind::Or,
        CompletionEvent::Xor(_) => OperationKind::Xor,
        CompletionEvent::Not(_) => OperationKind::Not,
        CompletionEvent::IfElse(_) => OperationKind::IfElse,
        CompletionEvent::VoteTally(_) => OperationKind::VoteTally,
        CompletionEvent::Average(_) => OperationKind::Average,
        CompletionEvent::Sum(_) => OperationKind::Sum,
        CompletionEvent::Min(_) => OperationKind::Min,
        CompletionEvent::Max(_) => OperationKind::Max,
        CompletionEvent::Median(_) => OperationKind::Median,
        CompletionEvent::WeightedAverage(_) => OperationKind::WeightedAverage,
        CompletionEvent::CreditScore(_) => OperationKind::CreditScore,
        CompletionEvent::HealthRisk(_) => OperationKind::HealthRisk,
    }
}

/// The ciphertexts that an event carries, in the order of its fields.
pub open spec fn event_fields(event: CompletionEvent) -> Seq<[u8; 32]> {
    match event {
        CompletionEvent::Add(e) => seq![e.result],
        CompletionEvent::Subtract(e) => seq![e.result],
        CompletionEvent::Multiply(e) => seq![e.result],
        CompletionEvent::Divide(e) => seq![e.result],
        CompletionEvent::Modulo(e) => seq![e.result],
        CompletionEvent::AbsDiff(e) => seq![e.result],
        CompletionEvent::Power(e) => seq![e.result],
        CompletionEvent::GreaterThan(e) => seq![e.result],
        CompletionEvent::LessThan(e) => seq![e.result],
        CompletionEvent::Equal(e) => seq![e.result],
        CompletionEvent::GreaterEqual(e) => seq![e.result],
        CompletionEvent::LessEqual(e) => seq![e.result],
        CompletionEvent::MeetsThreshold(e) => seq![e.result],
        CompletionEvent::InRange(e) => seq![e.result],
        CompletionEvent::And(e) => seq![e.result],
        CompletionEvent::Or(e) => seq![e.result],
        CompletionEvent::Xor(e) => seq![e.result],
        CompletionEvent::Not(e) => seq![e.result],
        CompletionEvent::IfElse(e) => seq![e.result],
        CompletionEvent::VoteTally(e) => seq![e.result],
        CompletionEvent::Average(e) => seq![e.result],
        CompletionEvent::Sum(e) => seq![e.result],
        CompletionEvent::Min(e) => seq![e.result],
        CompletionEvent::Max(e) => seq![e.result],
        CompletionEvent::Median(e) => seq![e.result],
        CompletionEvent::WeightedAverage(e) => seq![e.result],
        CompletionEvent::CreditScore(e) => seq![e.score, e.approved],
        CompletionEvent::HealthRisk(e) => seq![e.risk_score, e.risk_category],
    }
}

/// The nonce bytes that an event carries.
pub open spec fn event_nonce(event: CompletionEvent) -> [u8; 16] {
    match event {
        CompletionEvent::Add(e) => e.nonce,
        CompletionEvent::Subtract(e) => e.nonce,
        CompletionEvent::Multiply(e) => e.nonce,
        CompletionEvent::Divide(e) => e.nonce,
        CompletionEvent::Modulo(e) => e.nonce,
        CompletionEvent::AbsDiff(e) => e.nonce,
        CompletionEvent::Power(e) => e.nonce,
        CompletionEvent::GreaterThan(e) => e.nonce,
        CompletionEvent::LessThan(e) => e.nonce,
        CompletionEvent::Equal(e) => e.nonce,
        CompletionEvent::GreaterEqual(e) => e.nonce,
        CompletionEvent::LessEqual(e) => e.nonce,
        CompletionEvent::MeetsThreshold(e) => e.nonce,
        CompletionEvent::InRange(e) => e.nonce,
        CompletionEvent::And(e) => e.nonce,
        CompletionEvent::Or(e) => e.nonce,
        CompletionEvent::Xor(e) => e.nonce,
        CompletionEvent::Not(e) => e.nonce,
        CompletionEvent::IfElse(e) => e.nonce,
        CompletionEvent::VoteTally(e) => e.nonce,
        CompletionEvent::Average(e) => e.nonce,
        CompletionEvent::Sum(e) => e.nonce,
        CompletionEvent::Min(e) => e.nonce,
        CompletionEvent::Max(e) => e.nonce,
        CompletionEvent::Median(e) => e.nonce,
        CompletionEvent::WeightedAverage(e) => e.nonce,
        CompletionEvent::CreditScore(e) => e.nonce,
        CompletionEvent::HealthRisk(e) => e.nonce,
    }
}

/// Whether sixteen bytes are the little-endian encoding of a nonce.
pub open spec fn encodes_nonce(bytes: [u8; 16], nonce: u128) -> bool {
    bytes@ == spec_u128_to_le_bytes(nonce)
}

/// The field types of a list of result fields.
pub open spec fn field_types(output_fields: Seq<EncryptedScalar>) -> Seq<OutputFieldType> {
    output_fields.map_values(|scalar: EncryptedScalar| OutputFieldType { width: scalar.width })
}

/// The ciphertexts of a list of result fields.
pub open spec fn ciphertexts_of(output_fields: Seq<EncryptedScalar>) -> Seq<[u8; 32]> {
    output_fields.map_values(|scalar: EncryptedScalar| scalar.ciphertext)
}

/// Whether the result fields have exactly the types of the operation's output
/// schema, field by field.
pub open spec fn outputs_match(kind: OperationKind, output_fields: Seq<EncryptedScalar>) -> bool {
    field_types(output_fields) == output_schema(kind)
}

/// Whether an event is the record of a result: it is the operation's own
/// event, its fields hold the result's ciphertexts in the declared order, and
/// its nonce is the result's nonce in little-endian bytes.
pub open spec fn decodes_to(
    kind: OperationKind,
    output_fields: Seq<EncryptedScalar>,
    result_nonce: u128,
    event: CompletionEvent,
) -> bool {
    &&& event_kind(event) == kind
    &&& event_fields(event) == ciphertexts_of(output_fields)
    &&& encodes_nonce(event_nonce(event), result_nonce)
}

/// The little-endian bytes of a nonce.
pub fn nonce_to_bytes(nonce: u128) -> (bytes: [u8; 16])
    ensures
        encodes_nonce(bytes, nonce),
{
    let encoded = u128_to_le_bytes(nonce);
    let mut bytes = [0u8; 16];
    let mut i: usize = 0;
    while i < 16
        invariant
            i <= 16,
            encoded@.len() == 16,
            encoded@ == spec_u128_to_le_bytes(nonce),
            forall|j: int| 0 <= j < i ==> bytes@[j] == encoded@[j],
        decreases 16 - i,
    {
        bytes[i] = encoded[i];
        i = i + 1;
    }
    assert(bytes@ =~= encoded@);
    bytes
}

/// Whether the result fields have exactly the types of the operation's output
/// schema.
pub fn validate_outputs(kind: OperationKind, output_fields: &Vec<EncryptedScalar>) -> (valid: bool)
    ensures
        valid == outputs_match(kind, output_fields@),
{
    let widths = kind.output_widths();
    if output_fields.len() != widths.len() {
        return false;
    }
    let mut i: usize = 0;
    while i < output_fields.len()
        invariant
            i <= output_fields.len(),
            output_fields.len() == widths.len(),
            widths@ == output_widths(kind),
            forall|j: int| 0 <= j < i ==> (#[trigger] output_fields@[j]).width == widths@[j],
        decreases output_fields.len() - i,
    {
        if output_fields[i].width != widths[i] {
            proof {
                let at = i as int;
                assert(field_types(output_fields@)[at] != output_schema(kind)[at]);
            }
            return false;
        }
        i = i + 1;
    }
    assert(field_types(output_fields@) =~= output_schema(kind));
    true
}

/// Decodes fields that are known to match the operation's output schema.
pub(crate) fn decode_matching(
    kind: OperationKind,
    output_fields: &Vec<EncryptedScalar>,
    result_nonce: u128,
) -> (event: CompletionEvent)
    requires
        outputs_match(kind, output_fields@),
    ensures
        decodes_to(kind, output_fields@, result_nonce, event),
{
    let nonce = nonce_to_bytes(result_nonce);
    assert(output_fields@.len() == field_types(output_fields@).len());
    assert(output_schema(kind).len() == output_widths(kind).len());
    let event = match kind {
        OperationKind::Add => CompletionEvent::Add(
            AddEvent { result: output_fields[0].ciphertext, nonce },
        ),
        OperationKind::Subtract => CompletionEvent::Subtract(
            SubtractEvent { result: output_fields[0].ciphertext, nonce },
        ),
        OperationKind::Multiply => CompletionEvent::Multiply(
            MultiplyEvent { result: output_fields[0].ciphertext, nonce },
        ),
        OperationKind::Divide => CompletionEvent::Divide(
            DivideEvent { result: output_fields[0].ciphertext, nonce },
        ),
        OperationKind::Modulo => CompletionEvent::Modulo(
            ModuloEvent { result: output_fields[0].ciphertext, nonce },
        ),
        OperationKind::AbsDiff => CompletionEvent::AbsDiff(
            AbsDiffEvent { result: output_fields[0].ciphertext, nonce },
        ),
        OperationKind::Power => CompletionEvent::Power(
            PowerEvent { result: output_fields[0].ciphertext, nonce },
        ),
        OperationKind::GreaterThan => CompletionEvent::GreaterThan(
            GreaterThanEvent { result: output_fields[0].ciphertext, nonce },
        ),
        OperationKind::LessThan => CompletionEvent::LessThan(
            LessThanEvent { result: output_fields[0].ciphertext, nonce },
        ),
        OperationKind::Equal => CompletionEvent::Equal(
            EqualEvent { result: output_fields[0].ciphertext, nonce },
        ),
        OperationKind::GreaterEqual => CompletionEvent::GreaterEqual(
            GreaterEqualEvent { result: output_fields[0].ciphertext, nonce },
        ),
        OperationKind::LessEqual => CompletionEvent::LessEqual(
            LessEqualEvent { result: output_fields[0].ciphertext, nonce },
        ),
        OperationKind::MeetsThreshold => CompletionEvent::MeetsThreshold(
            MeetsThresholdEvent { result: output_fields[0].ciphertext, nonce },
        ),
        OperationKind::InRange => CompletionEvent::InRange(
            InRangeEvent { result: output_fields[0].ciphertext, nonce },
        ),
        OperationKind::And => CompletionEvent::And(
            AndEvent { result: output_fields[0].ciphertext, nonce },
        ),
        OperationKind::Or => CompletionEvent::Or(
            OrEvent { result: output_fields[0].ciphertext, nonce },
        ),
        OperationKind::Xor => CompletionEvent::Xor(
            XorEvent { result: output_fields[0].ciphertext, nonce },
        ),
        OperationKind::Not => CompletionEvent::Not(
            NotEvent { result: output_fields[0].ciphertext, nonce },
        ),
        OperationKind::IfElse => CompletionEvent::IfElse(
            IfElseEvent { result: output_fields[0].ciphertext, nonce },
        ),
        OperationKind::VoteTally => CompletionEvent::VoteTally(
            VoteTallyEvent { result: output_fields[0].ciphertext, nonce },
        ),
        OperationKind::Average => CompletionEvent::Average(
            AverageEvent { result: output_fields[0].ciphertext, nonce },
        ),
        OperationKind::Sum => CompletionEvent::Sum(
            SumEvent { result: output_fields[0].ciphertext, nonce },
        ),
        OperationKind::Min => CompletionEvent::Min(
            MinEvent { result: output_fields[0].ciphertext, nonce },
        ),
        OperationKind::Max => CompletionEvent::Max(
            MaxEvent { result: output_fields[0].ciphertext, nonce },
        ),
        OperationKind::Median => CompletionEvent::Median(
            MedianEvent { result: output_fields[0].ciphertext, nonce },
        ),
        OperationKind::WeightedAverage => CompletionEvent::WeightedAverage(
            WeightedAverageEvent { result: output_fields[0].ciphertext, nonce },
        ),
        OperationKind::CreditScore => CompletionEvent::CreditScore(
            CreditScoreEvent {
                score: output_fields[0].ciphertext,
                approved: output_fields[1].ciphertext,
                nonce,
            },
        ),
        OperationKind::HealthRisk => CompletionEvent::HealthRisk(
            HealthRiskEvent {
                risk_score: output_fields[0].ciphertext,
                risk_category: output_fields[1].ciphertext,
                nonce,
            },
        ),
    };
    assert(event_fields(event) =~= ciphertexts_of(output_fields@));
    event
}

/// Decodes the fields of a successful result into the operation's typed
/// record: field 0 of the result into the record's first field, field 1 into
/// its second. `None` where the fields differ from the output schema.
pub fn decode(
    kind: OperationKind,
    output_fields: &Vec<EncryptedScalar>,
    result_nonce: u128,
) -> (event: Option<CompletionEvent>)
    ensures
        event is Some <==> outputs_match(kind, output_fields@),
        event matches Some(e) ==> decodes_to(kind, output_fields@, result_nonce, e),
{
    if validate_outputs(kind, output_fields) {
        Some(decode_matching(kind, output_fields, result_nonce))
    } else {
        None
    }
}

/// An event that decodes a result carries as many fields as the result, and
/// each holds the ciphertext of the result's field at the same position.
pub proof fn law_decoding_keeps_order(
    kind: OperationKind,
    output_fields: Seq<EncryptedScalar>,
    result_nonce: u128,
    event: CompletionEvent,
)
    requires
        decodes_to(kind, output_fields, result_nonce, event),
    ensures
        event_fields(event).len() == output_fields.len(),
        forall|i: int|
            0 <= i < output_fields.len() ==> event_fields(event)[i] == (
            #[trigger] output_fields[i]).ciphertext,
{
}

/// A result has at most one record: two events that decode the same result
/// are the same event.
pub proof fn law_decoding_is_unique(
    kind: OperationKind,
    output_fields: Seq<EncryptedScalar>,
    result_nonce: u128,
    first: CompletionEvent,
    second: CompletionEvent,
)
    requires
        decodes_to(kind, output_fields, result_nonce, first),
        decodes_to(kind, output_fields, result_nonce, second),
    ensures
        first == second,
{
    assert(event_nonce(first) =~= event_nonce(second));
    assert(event_fields(first)[0] == event_fields(second)[0]);
    if event_fields(first).len() > 1 {
        assert(event_fields(first)[1] == event_fields(second)[1]);
    }
}

} // verus!
