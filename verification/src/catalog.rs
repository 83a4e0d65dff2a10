//! The operation catalog: the closed set of operations and, for each, the
//! ordered argument slots it takes and the ordered fields it returns.

use vstd::prelude::*;

verus! {

/// The operations that can be dispatched.
#[derive(Clone, Copy, Debug, PartialEq, Eq, Structural, Hash)]
pub enum OperationKind {
    Add,
    Subtract,
    Multiply,
    Divide,
    Modulo,
    AbsDiff,
    Power,
    GreaterThan,
    LessThan,
    Equal,
    GreaterEqual,
    LessEqual,
    MeetsThreshold,
    InRange,
    And,
    Or,
    Xor,
    Not,
    IfElse,
    VoteTally,
    Average,
    Sum,
    Min,
    Max,
    Median,
    WeightedAverage,
    CreditScore,
    HealthRisk,
}

/// The plaintext domain of an encrypted scalar.
#[derive(Clone, Copy, Debug, PartialEq, Eq, Structural, Hash)]
pub enum ScalarWidth {
    Bits8,
    Bits16,
    Bits64,
}

/// The type of one argument slot of a request.
#[derive(Clone, Copy, Debug, PartialEq, Eq, Structural, Hash)]
pub enum ArgumentSlotType {
    /// The caller's public key, to which the result is re-encrypted.
    PublicKeyMaterial,
    /// The freshness nonce of the encryption scheme.
    PlaintextNonce,
    /// A ciphertext of a scalar of the given width.
    EncryptedScalar(ScalarWidth),
}

/// The type of one field of a result: a ciphertext of a scalar of the given
/// width.
#[derive(Clone, Copy, Debug, PartialEq, Eq, Structural, Hash)]
pub struct OutputFieldType {
    pub width: ScalarWidth,
}

/// The number of operations in the catalog.
pub const OPERATION_COUNT: u8 = 28;

/// The name under which an operation's circuit is known.
pub open spec fn name_of(kind: OperationKind) -> Seq<char> {
    match kind {
        OperationKind::Add => "add"@,
        OperationKind::Subtract => "subtract"@,
        OperationKind::Multiply => "multiply"@,
        OperationKind::Divide => "divide"@,
        OperationKind::Modulo => "modulo"@,
        OperationKind::AbsDiff => "abs_diff"@,
        OperationKind::Power => "power"@,
        OperationKind::GreaterThan => "greater_than"@,
        OperationKind::LessThan => "less_than"@,
        OperationKind::Equal => "equal"@,
        OperationKind::GreaterEqual => "greater_equal"@,
        OperationKind::LessEqual => "less_equal"@,
        OperationKind::MeetsThreshold => "meets_threshold"@,
        OperationKind::InRange => "in_range"@,
        OperationKind::And => "and"@,
        OperationKind::Or => "or"@,
        OperationKind::Xor => "xor"@,
        OperationKind::Not => "not"@,
        OperationKind::IfElse => "if_else"@,
        OperationKind::VoteTally => "vote_tally"@,
        OperationKind::Average => "average"@,
        OperationKind::Sum => "sum"@,
        OperationKind::Min => "min"@,
        OperationKind::Max => "max"@,
        OperationKind::Median => "median"@,
        OperationKind::WeightedAverage => "weighted_average"@,
        OperationKind::CreditScore => "credit_score"@,
        OperationKind::HealthRisk => "health_risk"@,
    }
}

/// The position of an operation in the catalog.
pub open spec fn index_of(kind: OperationKind) -> int {
    match kind {
        OperationKind::Add => 0,
        OperationKind::Subtract => 1,
        OperationKind::Multiply => 2,
        OperationKind::Divide => 3,
        OperationKind::Modulo => 4,
        OperationKind::AbsDiff => 5,
        OperationKind::Power => 6,
        OperationKind::GreaterThan => 7,
        OperationKind::LessThan => 8,
        OperationKind::Equal => 9,
        OperationKind::GreaterEqual => 10,
        OperationKind::LessEqual => 11,
        OperationKind::MeetsThreshold => 12,
        OperationKind::InRange => 13,
        OperationKind::And => 14,
        OperationKind::Or => 15,
        OperationKind::Xor => 16,
        OperationKind::Not => 17,
        OperationKind::IfElse => 18,
        OperationKind::VoteTally => 19,
        OperationKind::Average => 20,
        OperationKind::Sum => 21,
        OperationKind::Min => 22,
        OperationKind::Max => 23,
        OperationKind::Median => 24,
        OperationKind::WeightedAverage => 25,
        OperationKind::CreditScore => 26,
        OperationKind::HealthRisk => 27,
    }
}

/// The widths of the ciphertexts that an operation takes, in order.
pub open spec fn encrypted_inputs(kind: OperationKind) -> Seq<ScalarWidth> {
    match kind {
        OperationKind::Add
        | OperationKind::Subtract
        | OperationKind::Multiply
        | OperationKind::Divide
        | OperationKind::Modulo
        | OperationKind::AbsDiff
        | OperationKind::GreaterThan
        | OperationKind::LessThan
        | OperationKind::Equal
        | OperationKind::GreaterEqual
        | OperationKind::LessEqual
        | OperationKind::MeetsThreshold => seq![ScalarWidth::Bits64, ScalarWidth::Bits64],
        OperationKind::Power
        | OperationKind::Average
        | OperationKind::Sum
        | OperationKind::Min
        | OperationKind::Max
        | OperationKind::Median
        | OperationKind::WeightedAverage => seq![ScalarWidth::Bits64, ScalarWidth::Bits8],
        OperationKind::InRange => seq![
            ScalarWidth::Bits64,
            ScalarWidth::Bits64,
            ScalarWidth::Bits64,
        ],
        OperationKind::And
        | OperationKind::Or
        | OperationKind::Xor => seq![ScalarWidth::Bits8, ScalarWidth::Bits8],
        OperationKind::Not
        | OperationKind::VoteTally => seq![ScalarWidth::Bits8],
        OperationKind::IfElse => seq![ScalarWidth::Bits8, ScalarWidth::Bits64, ScalarWidth::Bits64],
        OperationKind::CreditScore => seq![
            ScalarWidth::Bits64,
            ScalarWidth::Bits64,
            ScalarWidth::Bits8,
            ScalarWidth::Bits8,
        ],
        OperationKind::HealthRisk => seq![
            ScalarWidth::Bits8,
            ScalarWidth::Bits8,
            ScalarWidth::Bits8,
            ScalarWidth::Bits8,
            ScalarWidth::Bits8,
        ],
    }
}

/// The widths of the ciphertexts that an operation returns, in order.
pub open spec fn output_widths(kind: OperationKind) -> Seq<ScalarWidth> {
    match kind {
        OperationKind::Add
        | OperationKind::Subtract
        | OperationKind::Multiply
        | OperationKind::Divide
        | OperationKind::Modulo
        | OperationKind::AbsDiff
        | OperationKind::Power
        | OperationKind::IfElse
        | OperationKind::Average
        | OperationKind::Sum
        | OperationKind::Min
        | OperationKind::Max
        | OperationKind::Median
        | OperationKind::WeightedAverage => seq![ScalarWidth::Bits64],
        OperationKind::GreaterThan
        | OperationKind::LessThan
        | OperationKind::Equal
        | OperationKind::GreaterEqual
        | OperationKind::LessEqual
        | OperationKind::MeetsThreshold
        | OperationKind::InRange
        | OperationKind::And
        | OperationKind::Or
        | OperationKind::Xor
        | OperationKind::Not
        | OperationKind::VoteTally => seq![ScalarWidth::Bits8],
        OperationKind::CreditScore => seq![ScalarWidth::Bits16, ScalarWidth::Bits8],
        OperationKind::HealthRisk => seq![ScalarWidth::Bits8, ScalarWidth::Bits8],
    }
}

/// The operation of the given name, if the catalog has one.
pub open spec fn kind_named(name: Seq<char>) -> Option<OperationKind> {
    if exists|k: OperationKind| name_of(k) == name {
        Some(choose|k: OperationKind| name_of(k) == name)
    } else {
        None
    }
}

/// The two slots with which every request begins: the re-encryption key, then
/// the nonce.
pub open spec fn leading_slots() -> Seq<ArgumentSlotType> {
    seq![ArgumentSlotType::PublicKeyMaterial, ArgumentSlotType::PlaintextNonce]
}

/// The argument slots of an operation: the two leading slots, then one
/// encrypted scalar for each of its inputs.
pub open spec fn input_schema(kind: OperationKind) -> Seq<ArgumentSlotType> {
    leading_slots() + encrypted_inputs(kind).map_values(
        |w: ScalarWidth| ArgumentSlotType::EncryptedScalar(w),
    )
}

/// The result fields of an operation.
pub open spec fn output_schema(kind: OperationKind) -> Seq<OutputFieldType> {
    output_widths(kind).map_values(|w: ScalarWidth| OutputFieldType { width: w })
}

/// The argument and result schemas of one operation.
#[derive(Clone, Debug, PartialEq, Eq)]
pub struct Schema {
    pub input_schema: Vec<ArgumentSlotType>,
    pub output_schema: Vec<OutputFieldType>,
}

impl OperationKind {
    /// The name under which the operation's circuit is known.
    pub fn name(self) -> (name: &'static str)
        ensures
            name@ == name_of(self),
    {
        match self {
            OperationKind::Add => "add",
            OperationKind::Subtract => "subtract",
            OperationKind::Multiply => "multiply",
            OperationKind::Divide => "divide",
            OperationKind::Modulo => "modulo",
            OperationKind::AbsDiff => "abs_diff",
            OperationKind::Power => "power",
            OperationKind::GreaterThan => "greater_than",
            OperationKind::LessThan => "less_than",
            OperationKind::Equal => "equal",
            OperationKind::GreaterEqual => "greater_equal",
            OperationKind::LessEqual => "less_equal",
            OperationKind::MeetsThreshold => "meets_threshold",
            OperationKind::InRange => "in_range",
            OperationKind::And => "and",
            OperationKind::Or => "or",
            OperationKind::Xor => "xor",
            OperationKind::Not => "not",
            OperationKind::IfElse => "if_else",
            OperationKind::VoteTally => "vote_tally",
            OperationKind::Average => "average",
            OperationKind::Sum => "sum",
            OperationKind::Min => "min",
            OperationKind::Max => "max",
            OperationKind::Median => "median",
            OperationKind::WeightedAverage => "weighted_average",
            OperationKind::CreditScore => "credit_score",
            OperationKind::HealthRisk => "health_risk",
        }
    }

    /// The position of the operation in the catalog.
    pub fn index(self) -> (index: u8)
        ensures
            index == index_of(self),
            index < OPERATION_COUNT,
    {
        match self {
            OperationKind::Add => 0,
            OperationKind::Subtract => 1,
            OperationKind::Multiply => 2,
            OperationKind::Divide => 3,
            OperationKind::Modulo => 4,
            OperationKind::AbsDiff => 5,
            OperationKind::Power => 6,
            OperationKind::GreaterThan => 7,
            OperationKind::LessThan => 8,
            OperationKind::Equal => 9,
            OperationKind::GreaterEqual => 10,
            OperationKind::LessEqual => 11,
            OperationKind::MeetsThreshold => 12,
            OperationKind::InRange => 13,
            OperationKind::And => 14,
            OperationKind::Or => 15,
            OperationKind::Xor => 16,
            OperationKind::Not => 17,
            OperationKind::IfElse => 18,
            OperationKind::VoteTally => 19,
            OperationKind::Average => 20,
            OperationKind::Sum => 21,
            OperationKind::Min => 22,
            OperationKind::Max => 23,
            OperationKind::Median => 24,
            OperationKind::WeightedAverage => 25,
            OperationKind::CreditScore => 26,
            OperationKind::HealthRisk => 27,
        }
    }

    /// The operation at a position of the catalog, if there is one.
    pub fn from_index(index: u8) -> (kind: Option<OperationKind>)
        ensures
            index < OPERATION_COUNT ==> kind is Some && index_of(kind->0) == index,
            index >= OPERATION_COUNT ==> kind is None,
    {
        match index {
            0 => Some(OperationKind::Add),
            1 => Some(OperationKind::Subtract),
            2 => Some(OperationKind::Multiply),
            3 => Some(OperationKind::Divide),
            4 => Some(OperationKind::Modulo),
            5 => Some(OperationKind::AbsDiff),
            6 => Some(OperationKind::Power),
            7 => Some(OperationKind::GreaterThan),
            8 => Some(OperationKind::LessThan),
            9 => Some(OperationKind::Equal),
            10 => Some(OperationKind::GreaterEqual),
            11 => Some(OperationKind::LessEqual),
            12 => Some(OperationKind::MeetsThreshold),
            13 => Some(OperationKind::InRange),
            14 => Some(OperationKind::And),
            15 => Some(OperationKind::Or),
            16 => Some(OperationKind::Xor),
            17 => Some(OperationKind::Not),
            18 => Some(OperationKind::IfElse),
            19 => Some(OperationKind::VoteTally),
            20 => Some(OperationKind::Average),
            21 => Some(OperationKind::Sum),
            22 => Some(OperationKind::Min),
            23 => Some(OperationKind::Max),
            24 => Some(OperationKind::Median),
            25 => Some(OperationKind::WeightedAverage),
            26 => Some(OperationKind::CreditScore),
            27 => Some(OperationKind::HealthRisk),
            _ => None,
        }
    }

    /// The operation with the given name, if the catalog has one.
    pub fn from_name(name: &str) -> (kind: Option<OperationKind>)
        ensures
            kind == kind_named(name@),
            kind matches Some(k) ==> name_of(k) == name@,
            kind is None ==> forall|k: OperationKind| name_of(k) != name@,
    {
        let wanted = name.to_owned();
        let mut index: u8 = 0;
        while index < OPERATION_COUNT
            invariant
                index <= OPERATION_COUNT,
                wanted@ == name@,
                forall|k: OperationKind| index_of(k) < index ==> name_of(k) != name@,
            decreases OPERATION_COUNT - index,
        {
            let kind = OperationKind::from_index(index).unwrap();
            let candidate = kind.name().to_owned();
            if candidate == wanted {
                proof {
                    let found = choose|k: OperationKind| name_of(k) == name@;
                    lemma_names_are_distinct(found, kind);
                }
                return Some(kind);
            }
            proof {
                lemma_index_is_injective();
            }
            index = index + 1;
        }
        None
    }

    /// The widths of the ciphertexts that the operation takes, in order.
    pub fn encrypted_inputs(self) -> (widths: Vec<ScalarWidth>)
        ensures
            widths@ == encrypted_inputs(self),
    {
        match self {
            OperationKind::Add
            | OperationKind::Subtract
            | OperationKind::Multiply
            | OperationKind::Divide
            | OperationKind::Modulo
            | OperationKind::AbsDiff
            | OperationKind::GreaterThan
            | OperationKind::LessThan
            | OperationKind::Equal
            | OperationKind::GreaterEqual
            | OperationKind::LessEqual
            | OperationKind::MeetsThreshold => vec![ScalarWidth::Bits64, ScalarWidth::Bits64],
            OperationKind::Power
            | OperationKind::Average
            | OperationKind::Sum
            | OperationKind::Min
            | OperationKind::Max
            | OperationKind::Median
            | OperationKind::WeightedAverage => vec![ScalarWidth::Bits64, ScalarWidth::Bits8],
            OperationKind::InRange => vec![
                ScalarWidth::Bits64,
                ScalarWidth::Bits64,
                ScalarWidth::Bits64,
            ],
            OperationKind::And
            | OperationKind::Or
            | OperationKind::Xor => vec![ScalarWidth::Bits8, ScalarWidth::Bits8],
            OperationKind::Not
            | OperationKind::VoteTally => vec![ScalarWidth::Bits8],
            OperationKind::IfElse => vec![
                ScalarWidth::Bits8,
                ScalarWidth::Bits64,
                ScalarWidth::Bits64,
            ],
            OperationKind::CreditScore => vec![
                ScalarWidth::Bits64,
                ScalarWidth::Bits64,
                ScalarWidth::Bits8,
                ScalarWidth::Bits8,
            ],
            OperationKind::HealthRisk => vec![
                ScalarWidth::Bits8,
                ScalarWidth::Bits8,
                ScalarWidth::Bits8,
                ScalarWidth::Bits8,
                ScalarWidth::Bits8,
            ],
        }
    }

    /// The widths of the ciphertexts that the operation returns, in order.
    pub fn output_widths(self) -> (widths: Vec<ScalarWidth>)
        ensures
            widths@ == output_widths(self),
    {
        match self {
            OperationKind::Add
            | OperationKind::Subtract
            | OperationKind::Multiply
            | OperationKind::Divide
            | OperationKind::Modulo
            | OperationKind::AbsDiff
            | OperationKind::Power
            | OperationKind::IfElse
            | OperationKind::Average
            | OperationKind::Sum
            | OperationKind::Min
            | OperationKind::Max
            | OperationKind::Median
            | OperationKind::WeightedAverage => vec![ScalarWidth::Bits64],
            OperationKind::GreaterThan
            | OperationKind::LessThan
            | OperationKind::Equal
            | OperationKind::GreaterEqual
            | OperationKind::LessEqual
            | OperationKind::MeetsThreshold
            | OperationKind::InRange
            | OperationKind::And
            | OperationKind::Or
            | OperationKind::Xor
            | OperationKind::Not
            | OperationKind::VoteTally => vec![ScalarWidth::Bits8],
            OperationKind::CreditScore => vec![ScalarWidth::Bits16, ScalarWidth::Bits8],
            OperationKind::HealthRisk => vec![ScalarWidth::Bits8, ScalarWidth::Bits8],
        }
    }
}

/// The argument and result schemas of an operation. Total over the catalog.
pub fn schema_for(kind: OperationKind) -> (schema: Schema)
    ensures
        schema.input_schema@ == input_schema(kind),
        schema.output_schema@ == output_schema(kind),
{
    let inputs = kind.encrypted_inputs();
    let mut slots: Vec<ArgumentSlotType> = Vec::new();
    slots.push(ArgumentSlotType::PublicKeyMaterial);
    slots.push(ArgumentSlotType::PlaintextNonce);
    let mut i: usize = 0;
    while i < inputs.len()
        invariant
            i <= inputs.len(),
            inputs@ == encrypted_inputs(kind),
            slots@ =~= input_schema(kind).take(2 + i),
        decreases inputs.len() - i,
    {
        slots.push(ArgumentSlotType::EncryptedScalar(inputs[i]));
        i = i + 1;
    }
    let outputs = kind.output_widths();
    let mut fields: Vec<OutputFieldType> = Vec::new();
    let mut j: usize = 0;
    while j < outputs.len()
        invariant
            j <= outputs.len(),
            outputs@ == output_widths(kind),
            fields@ =~= output_schema(kind).take(j as int),
        decreases outputs.len() - j,
    {
        fields.push(OutputFieldType { width: outputs[j] });
        j = j + 1;
    }
    Schema { input_schema: slots, output_schema: fields }
}

/// Distinct operations stand at distinct positions, and every position below
/// the operation count is taken.
pub proof fn lemma_index_is_injective()
    ensures
        forall|a: OperationKind, b: OperationKind| index_of(a) == index_of(b) ==> a == b,
        forall|k: OperationKind| 0 <= #[trigger] index_of(k) < OPERATION_COUNT,
{
}

/// The length and the first two characters of an operation's name: enough to
/// tell any two names of the catalog apart.
spec fn name_mark(kind: OperationKind) -> (nat, char, char) {
    match kind {
        OperationKind::Add => (3, 'a', 'd'),
        OperationKind::Subtract => (8, 's', 'u'),
        OperationKind::Multiply => (8, 'm', 'u'),
        OperationKind::Divide => (6, 'd', 'i'),
        OperationKind::Modulo => (6, 'm', 'o'),
        OperationKind::AbsDiff => (8, 'a', 'b'),
        OperationKind::Power => (5, 'p', 'o'),
        OperationKind::GreaterThan => (12, 'g', 'r'),
        OperationKind::LessThan => (9, 'l', 'e'),
        OperationKind::Equal => (5, 'e', 'q'),
        OperationKind::GreaterEqual => (13, 'g', 'r'),
        OperationKind::LessEqual => (10, 'l', 'e'),
        OperationKind::MeetsThreshold => (15, 'm', 'e'),
        OperationKind::InRange => (8, 'i', 'n'),
        OperationKind::And => (3, 'a', 'n'),
        OperationKind::Or => (2, 'o', 'r'),
        OperationKind::Xor => (3, 'x', 'o'),
        OperationKind::Not => (3, 'n', 'o'),
        OperationKind::IfElse => (7, 'i', 'f'),
        OperationKind::VoteTally => (10, 'v', 'o'),
        OperationKind::Average => (7, 'a', 'v'),
        OperationKind::Sum => (3, 's', 'u'),
        OperationKind::Min => (3, 'm', 'i'),
        OperationKind::Max => (3, 'm', 'a'),
        OperationKind::Median => (6, 'm', 'e'),
        OperationKind::WeightedAverage => (16, 'w', 'e'),
        OperationKind::CreditScore => (12, 'c', 'r'),
        OperationKind::HealthRisk => (11, 'h', 'e'),
    }
}

proof fn lemma_name_marks(kind: OperationKind)
    ensures
        name_of(kind).len() == name_mark(kind).0,
        name_of(kind)[0] == name_mark(kind).1,
        name_of(kind)[1] == name_mark(kind).2,
{
    reveal_strlit("add");
    reveal_strlit("subtract");
    reveal_strlit("multiply");
    reveal_strlit("divide");
    reveal_strlit("modulo");
    reveal_strlit("abs_diff");
    reveal_strlit("power");
    reveal_strlit("greater_than");
    reveal_strlit("less_than");
    reveal_strlit("equal");
    reveal_strlit("greater_equal");
    reveal_strlit("less_equal");
    reveal_strlit("meets_threshold");
    reveal_strlit("in_range");
    reveal_strlit("and");
    reveal_strlit("or");
    reveal_strlit("xor");
    reveal_strlit("not");
    reveal_strlit("if_else");
    reveal_strlit("vote_tally");
    reveal_strlit("average");
    reveal_strlit("sum");
    reveal_strlit("min");
    reveal_strlit("max");
    reveal_strlit("median");
    reveal_strlit("weighted_average");
    reveal_strlit("credit_score");
    reveal_strlit("health_risk");
}

/// Distinct operations have distinct names.
pub proof fn lemma_names_are_distinct(a: OperationKind, b: OperationKind)
    requires
        name_of(a) == name_of(b),
    ensures
        a == b,
{
    lemma_name_marks(a);
    lemma_name_marks(b);
}

/// Every request begins with the re-encryption key and the nonce, whatever
/// the operation, and every slot after them is an encrypted scalar.
pub proof fn lemma_schema_convention(kind: OperationKind)
    ensures
        input_schema(kind).len() == 2 + encrypted_inputs(kind).len(),
        input_schema(kind)[0] == ArgumentSlotType::PublicKeyMaterial,
        input_schema(kind)[1] == ArgumentSlotType::PlaintextNonce,
        forall|i: int|
            2 <= i < input_schema(kind).len() ==> #[trigger] input_schema(kind)[i]
                == ArgumentSlotType::EncryptedScalar(encrypted_inputs(kind)[i - 2]),
        output_schema(kind).len() >= 1,
{
}

} // verus!
