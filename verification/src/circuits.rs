//! What each operation's circuit computes, stated on plain values.
//!
//! The cluster evaluates these functions on secret-shared inputs. The dispatch
//! layer never sees the plain values; the functions here say what a result
//! ciphertext decrypts to, for inputs on which the arithmetic does not
//! overflow.

use vstd::prelude::*;
use vstd::arithmetic::power::{lemma_pow0, lemma_pow1, lemma_pow_adds, lemma_pow_increases, pow};

verus! {

/// The most values that a statistics input carries.
pub const MAX_VALUES: u8 = 10;

/// The largest exponent that `power` honours.
pub const MAX_EXPONENT: u8 = 10;

pub struct AddInputs {
    pub a: u64,
    pub b: u64,
}

pub struct SubtractInputs {
    pub a: u64,
    pub b: u64,
}

pub struct MultiplyInputs {
    pub a: u64,
    pub b: u64,
}

pub struct DivideInputs {
    pub a: u64,
    pub b: u64,
}

pub struct ModuloInputs {
    pub a: u64,
    pub b: u64,
}

pub struct PowerInputs {
    pub base: u64,
    pub exponent: u8,
}

pub struct AbsDiffInputs {
    pub a: u64,
    pub b: u64,
}

pub struct CompareInputs {
    pub a: u64,
    pub b: u64,
}

/// Range check: `min <= value <= max`.
pub struct RangeCheckInputs {
    pub value: u64,
    pub min: u64,
    pub max: u64,
}

pub struct LogicalInputs {
    pub a: u8,
    pub b: u8,
}

pub struct NotInputs {
    pub a: u8,
}

pub struct ConditionalInputs {
    pub condition: u8,
    pub true_value: u64,
    pub false_value: u64,
}

pub struct AverageInputs {
    pub values: [u64; 10],
    pub count: u8,
}

pub struct CreditScoreInputs {
    pub income: u64,
    pub debt: u64,
    pub credit_history: u8,
    pub missed_payments: u8,
}

#[derive(Clone, Copy, Debug, PartialEq, Eq)]
pub struct CreditScoreOutput {
    pub score: u16,
    pub approved: u8,
}

pub struct HealthRiskInputs {
    pub age: u8,
    pub bmi: u8,
    pub smoker: u8,
    pub exercise_hours: u8,
    pub family_history: u8,
}

#[derive(Clone, Copy, Debug, PartialEq, Eq)]
pub struct HealthRiskOutput {
    pub risk_score: u8,
    pub risk_category: u8,
}

pub struct VoteInputs {
    pub vote: u8,
}

pub struct ThresholdInputs {
    pub value: u64,
    pub threshold: u64,
}

pub struct WeightedAverageInputs {
    pub values: [u64; 5],
    pub weights: [u8; 5],
}

/// A truth value as the circuits encode it: 1 for true, 0 for false.
pub open spec fn flag(b: bool) -> u8 {
    if b {
        1u8
    } else {
        0u8
    }
}

/// The number of values that a statistics circuit reads: the declared count,
/// capped at the capacity of the input.
pub open spec fn effective_count(count: u8) -> nat {
    if count > MAX_VALUES {
        MAX_VALUES as nat
    } else {
        count as nat
    }
}

/// The sum of the first `n` values.
pub open spec fn prefix_sum(values: Seq<u64>, n: nat) -> nat
    decreases n,
{
    if n == 0 {
        0
    } else {
        prefix_sum(values, (n - 1) as nat) + values[n - 1] as nat
    }
}

/// The sum of the first `n` products of a value and its weight.
pub open spec fn weighted_prefix_sum(values: Seq<u64>, weights: Seq<u8>, n: nat) -> nat
    decreases n,
{
    if n == 0 {
        0
    } else {
        weighted_prefix_sum(values, weights, (n - 1) as nat) + (values[n - 1] as nat) * (weights[n
            - 1] as nat)
    }
}

/// The sum of the first `n` weights.
pub open spec fn weight_prefix_sum(weights: Seq<u8>, n: nat) -> nat
    decreases n,
{
    if n == 0 {
        0
    } else {
        weight_prefix_sum(weights, (n - 1) as nat) + weights[n - 1] as nat
    }
}

/// The mean of the first `n` values, rounded down; 0 of no values.
pub open spec fn prefix_mean(values: Seq<u64>, n: nat) -> nat {
    if n > 0 {
        prefix_sum(values, n) / n
    } else {
        0
    }
}

/// Whether `m` is the least of the first `n` values; of no values, whether
/// it is 0.
pub open spec fn is_prefix_min(values: Seq<u64>, n: nat, m: u64) -> bool {
    if n == 0 {
        m == 0
    } else {
        &&& exists|i: int| 0 <= i < n && values[i] == m
        &&& forall|i: int| 0 <= i < n ==> m <= values[i]
    }
}

/// Whether `m` is the greatest of the first `n` values; of no values,
/// whether it is 0.
pub open spec fn is_prefix_max(values: Seq<u64>, n: nat, m: u64) -> bool {
    if n == 0 {
        m == 0
    } else {
        &&& exists|i: int| 0 <= i < n && values[i] == m
        &&& forall|i: int| 0 <= i < n ==> m >= values[i]
    }
}

/// Debt as a percentage of income, kept to 16 bits; 100 where there is no
/// income.
pub open spec fn debt_to_income(income: u64, debt: u64) -> int {
    if income > 0 {
        ((debt * 100) / (income as int)) % 0x1_0000
    } else {
        100
    }
}

/// The score before history and missed payments are counted: 650, raised for
/// a low debt ratio and lowered for a high one.
pub open spec fn base_score(dti: int) -> int {
    if dti < 20 {
        750
    } else if dti < 35 {
        700
    } else if dti > 50 {
        550
    } else {
        650
    }
}

/// The credit score: the base score plus 5 for each year of history, minus 30
/// for each missed payment (not below 0), then kept within 300 and 850.
pub open spec fn credit_score_of(input: CreditScoreInputs) -> int {
    let raised = base_score(debt_to_income(input.income, input.debt)) + input.credit_history * 5;
    let penalty = input.missed_payments * 30;
    let lowered = if raised > penalty {
        raised - penalty
    } else {
        0
    };
    if lowered < 300 {
        300
    } else if lowered > 850 {
        850
    } else {
        lowered
    }
}

/// Approval: a score of at least 700 with a debt ratio under 43.
pub open spec fn credit_approved(input: CreditScoreInputs) -> bool {
    credit_score_of(input) >= 700 && debt_to_income(input.income, input.debt) < 43
}

/// The points that age contributes to the health risk.
pub open spec fn age_risk(age: u8) -> int {
    if age > 65 {
        30
    } else if age > 50 {
        20
    } else if age > 35 {
        10
    } else {
        0
    }
}

/// The points that the body-mass index contributes to the health risk.
pub open spec fn bmi_risk(bmi: u8) -> int {
    if bmi < 18 || bmi > 30 {
        20
    } else if bmi > 25 {
        10
    } else {
        0
    }
}

/// The risk after exercise is counted: ten points off (not below 0) for five
/// hours or more, ten points on for fewer than two.
pub open spec fn exercise_adjusted(risk: int, exercise_hours: u8) -> int {
    if exercise_hours >= 5 {
        if risk > 10 {
            risk - 10
        } else {
            0
        }
    } else if exercise_hours < 2 {
        risk + 10
    } else {
        risk
    }
}

/// The health risk score, between 0 and 100.
pub open spec fn health_risk_of(input: HealthRiskInputs) -> int {
    let before_exercise = age_risk(input.age) + bmi_risk(input.bmi) + if input.smoker != 0 {
        25int
    } else {
        0int
    };
    let total = exercise_adjusted(before_exercise, input.exercise_hours) + if input.family_history
        != 0 {
        15int
    } else {
        0int
    };
    if total > 100 {
        100
    } else {
        total
    }
}

/// The category of a risk score: 0 below 25, 1 below 50, 2 below 75, else 3.
pub open spec fn risk_category_of(risk: int) -> int {
    if risk < 25 {
        0
    } else if risk < 50 {
        1
    } else if risk < 75 {
        2
    } else {
        3
    }
}

/// Scores the health risk of a person from age, body-mass index, smoking,
/// weekly exercise and family history.
pub fn health_risk(input: HealthRiskInputs) -> (output: HealthRiskOutput)
    ensures
        output.risk_score == health_risk_of(input),
        output.risk_category == risk_category_of(health_risk_of(input)),
        output.risk_score <= 100,
        output.risk_category <= 3,
{
    let mut risk: u8 = 0;
    if input.age > 65 {
        risk += 30;
    } else if input.age > 50 {
        risk += 20;
    } else if input.age > 35 {
        risk += 10;
    }
    if input.bmi < 18 || input.bmi > 30 {
        risk += 20;
    } else if input.bmi > 25 {
        risk += 10;
    }
    if input.smoker != 0 {
        risk += 25;
    }
    if input.exercise_hours >= 5 {
        risk = if risk > 10 {
            risk - 10
        } else {
            0
        };
    } else if input.exercise_hours < 2 {
        risk += 10;
    }
    if input.family_history != 0 {
        risk += 15;
    }
    if risk > 100 {
        risk = 100;
    }
    let category: u8 = if risk < 25 {
        0u8
    } else if risk < 50 {
        1u8
    } else if risk < 75 {
        2u8
    } else {
        3u8
    };
    HealthRiskOutput { risk_score: risk, risk_category: category }
}

/// Scores a credit application and says whether it is approved.
pub fn credit_score(input: CreditScoreInputs) -> (output: CreditScoreOutput)
    requires
        input.debt * 100 <= u64::MAX,
    ensures
        output.score == credit_score_of(input),
        output.approved == flag(credit_approved(input)),
        300 <= output.score <= 850,
{
    let dti_ratio: u16 = if input.income > 0 {
        (((input.debt * 100) / input.income) % 0x1_0000) as u16
    } else {
        100u16
    };
    let mut score: u16 = 650;
    if dti_ratio < 20 {
        score += 100;
    } else if dti_ratio < 35 {
        score += 50;
    } else if dti_ratio > 50 {
        score = if score > 100 {
            score - 100
        } else {
            0
        };
    }
    score += (input.credit_history as u16) * 5;
    let penalty: u16 = (input.missed_payments as u16) * 30;
    score = if score > penalty {
        score - penalty
    } else {
        0
    };
    if score < 300 {
        score = 300;
    }
    if score > 850 {
        score = 850;
    }
    let approved: u8 = if score >= 700 && dti_ratio < 43 {
        1u8
    } else {
        0u8
    };
    CreditScoreOutput { score, approved }
}

/// Whether a value lies within the closed range from `min` to `max`.
pub fn in_range(input: RangeCheckInputs) -> (result: u8)
    ensures
        result == flag(input.min <= input.value <= input.max),
{
    if input.value >= input.min && input.value <= input.max {
        1u8
    } else {
        0u8
    }
}

/// Picks one of two values by a condition: the first where the condition is
/// not 0.
pub fn if_else(input: ConditionalInputs) -> (result: u64)
    ensures
        result == if input.condition != 0 {
            input.true_value
        } else {
            input.false_value
        },
{
    if input.condition != 0 {
        input.true_value
    } else {
        input.false_value
    }
}

/// The sum of two values.
pub fn add(input: AddInputs) -> (result: u64)
    requires
        input.a + input.b <= u64::MAX,
    ensures
        result == input.a + input.b,
{
    input.a + input.b
}

/// The difference of two values, 0 where the second is not smaller.
pub fn subtract(input: SubtractInputs) -> (result: u64)
    ensures
        result == if input.a > input.b {
            input.a - input.b
        } else {
            0
        },
{
    if input.a > input.b {
        input.a - input.b
    } else {
        0
    }
}

/// The product of two values.
pub fn multiply(input: MultiplyInputs) -> (result: u64)
    requires
        input.a * input.b <= u64::MAX,
    ensures
        result == input.a * input.b,
{
    input.a * input.b
}

/// The quotient of two values, rounded down; 0 where the divisor is 0.
pub fn divide(input: DivideInputs) -> (result: u64)
    ensures
        input.b != 0 ==> result == input.a / input.b,
        input.b == 0 ==> result == 0,
{
    if input.b != 0 {
        input.a / input.b
    } else {
        0
    }
}

/// The remainder of a division; 0 where the divisor is 0.
pub fn modulo(input: ModuloInputs) -> (result: u64)
    ensures
        input.b != 0 ==> result == input.a % input.b,
        input.b == 0 ==> result == 0,
{
    if input.b != 0 {
        input.a % input.b
    } else {
        0
    }
}

/// The exponent that `power` uses: the given one, capped at
/// [`MAX_EXPONENT`].
pub open spec fn effective_exponent(exponent: u8) -> nat {
    if exponent > MAX_EXPONENT {
        MAX_EXPONENT as nat
    } else {
        exponent as nat
    }
}

/// A base raised to an exponent of at most [`MAX_EXPONENT`]; a larger
/// exponent counts as [`MAX_EXPONENT`].
pub fn power(input: PowerInputs) -> (result: u64)
    requires
        pow(input.base as int, effective_exponent(input.exponent)) <= u64::MAX,
    ensures
        result == pow(input.base as int, effective_exponent(input.exponent)),
{
    let exp: u8 = if input.exponent > MAX_EXPONENT {
        MAX_EXPONENT
    } else {
        input.exponent
    };
    let mut result: u64 = 1;
    let mut done: u8 = 0;
    proof {
        lemma_pow0(input.base as int);
    }
    while done < exp
        invariant
            done <= exp,
            exp == effective_exponent(input.exponent),
            result == pow(input.base as int, done as nat),
            pow(input.base as int, exp as nat) <= u64::MAX,
        decreases exp - done,
    {
        proof {
            let b = input.base as int;
            lemma_pow_adds(b, done as nat, 1);
            lemma_pow1(b);
            if b > 0 {
                lemma_pow_increases(b as nat, (done + 1) as nat, exp as nat);
            } else {
                assert(pow(b, done as nat) * b == 0) by (nonlinear_arith)
                    requires
                        b == 0,
                ;
            }
        }
        result = result * input.base;
        done = done + 1;
    }
    result
}

/// The distance between two values.
pub fn abs_diff(input: AbsDiffInputs) -> (result: u64)
    ensures
        result == if input.a > input.b {
            input.a - input.b
        } else {
            input.b - input.a
        },
{
    if input.a > input.b {
        input.a - input.b
    } else {
        input.b - input.a
    }
}

/// Whether the first value is greater than the second.
pub fn greater_than(input: CompareInputs) -> (result: u8)
    ensures
        result == flag(input.a > input.b),
{
    if input.a > input.b {
        1u8
    } else {
        0u8
    }
}

/// Whether the first value is less than the second.
pub fn less_than(input: CompareInputs) -> (result: u8)
    ensures
        result == flag(input.a < input.b),
{
    if input.a < input.b {
        1u8
    } else {
        0u8
    }
}

/// Whether the two values are equal.
pub fn equal(input: CompareInputs) -> (result: u8)
    ensures
        result == flag(input.a == input.b),
{
    if input.a == input.b {
        1u8
    } else {
        0u8
    }
}

/// Whether the first value is at least the second.
pub fn greater_equal(input: CompareInputs) -> (result: u8)
    ensures
        result == flag(input.a >= input.b),
{
    if input.a >= input.b {
        1u8
    } else {
        0u8
    }
}

/// Whether the first value is at most the second.
pub fn less_equal(input: CompareInputs) -> (result: u8)
    ensures
        result == flag(input.a <= input.b),
{
    if input.a <= input.b {
        1u8
    } else {
        0u8
    }
}

/// Whether a value reaches a threshold.
pub fn meets_threshold(input: ThresholdInputs) -> (result: u8)
    ensures
        result == flag(input.value >= input.threshold),
{
    if input.value >= input.threshold {
        1u8
    } else {
        0u8
    }
}

/// Whether both inputs are true (not 0).
pub fn and(input: LogicalInputs) -> (result: u8)
    ensures
        result == flag(input.a != 0 && input.b != 0),
{
    if input.a != 0 && input.b != 0 {
        1u8
    } else {
        0u8
    }
}

/// Whether at least one input is true (not 0).
pub fn or(input: LogicalInputs) -> (result: u8)
    ensures
        result == flag(input.a != 0 || input.b != 0),
{
    if input.a != 0 || input.b != 0 {
        1u8
    } else {
        0u8
    }
}

/// Whether the input is false (0).
pub fn not(input: NotInputs) -> (result: u8)
    ensures
        result == flag(input.a == 0),
{
    if input.a == 0 {
        1u8
    } else {
        0u8
    }
}

/// Whether exactly one input is true (not 0).
pub fn xor(input: LogicalInputs) -> (result: u8)
    ensures
        result == flag((input.a != 0) != (input.b != 0)),
{
    let a_bool = input.a != 0;
    let b_bool = input.b != 0;
    if a_bool != b_bool {
        1u8
    } else {
        0u8
    }
}

/// A ballot, passed through unchanged.
pub fn vote_tally(input: VoteInputs) -> (result: u8)
    ensures
        result == input.vote,
{
    input.vote
}

/// The sum of the first `effective_count` values of a statistics input.
fn counted_sum(input: &AverageInputs) -> (total: u64)
    requires
        prefix_sum(input.values@, effective_count(input.count)) <= u64::MAX,
    ensures
        total == prefix_sum(input.values@, effective_count(input.count)),
{
    let cnt: u8 = if input.count > MAX_VALUES {
        MAX_VALUES
    } else {
        input.count
    };
    let mut total: u64 = 0;
    let mut i: u8 = 0;
    while i < cnt
        invariant
            i <= cnt <= MAX_VALUES,
            cnt == effective_count(input.count),
            total == prefix_sum(input.values@, i as nat),
            prefix_sum(input.values@, cnt as nat) <= u64::MAX,
        decreases cnt - i,
    {
        proof {
            lemma_prefix_sum_grows(input.values@, (i + 1) as nat, cnt as nat);
        }
        total = total + input.values[i as usize];
        i = i + 1;
    }
    total
}

/// A longer prefix has no smaller sum.
pub proof fn lemma_prefix_sum_grows(values: Seq<u64>, m: nat, n: nat)
    requires
        m <= n,
    ensures
        prefix_sum(values, m) <= prefix_sum(values, n),
    decreases n,
{
    if m < n {
        lemma_prefix_sum_grows(values, m, (n - 1) as nat);
    }
}

/// The sum of the counted values.
pub fn sum(input: AverageInputs) -> (result: u64)
    requires
        prefix_sum(input.values@, effective_count(input.count)) <= u64::MAX,
    ensures
        result == prefix_sum(input.values@, effective_count(input.count)),
{
    counted_sum(&input)
}

/// The mean of the counted values, rounded down; 0 where none is counted.
pub fn average(input: AverageInputs) -> (result: u64)
    requires
        prefix_sum(input.values@, effective_count(input.count)) <= u64::MAX,
    ensures
        result == prefix_mean(input.values@, effective_count(input.count)),
{
    let cnt: u8 = if input.count > MAX_VALUES {
        MAX_VALUES
    } else {
        input.count
    };
    let total = counted_sum(&input);
    if cnt > 0 {
        total / (cnt as u64)
    } else {
        0
    }
}

/// The mean of the counted values, rounded down, which this circuit gives
/// for the median; 0 where none is counted.
pub fn median(input: AverageInputs) -> (result: u64)
    requires
        prefix_sum(input.values@, effective_count(input.count)) <= u64::MAX,
    ensures
        result == prefix_mean(input.values@, effective_count(input.count)),
{
    average(input)
}

/// The least of the counted values; 0 where none is counted.
pub fn min(input: AverageInputs) -> (result: u64)
    ensures
        is_prefix_min(input.values@, effective_count(input.count), result),
{
    let cnt: u8 = if input.count > MAX_VALUES {
        MAX_VALUES
    } else {
        input.count
    };
    if cnt == 0 {
        return 0;
    }
    let mut min_val: u64 = input.values[0];
    let mut i: u8 = 1;
    while i < cnt
        invariant
            1 <= i <= cnt <= MAX_VALUES,
            is_prefix_min(input.values@, i as nat, min_val),
        decreases cnt - i,
    {
        if input.values[i as usize] < min_val {
            min_val = input.values[i as usize];
        }
        i = i + 1;
    }
    min_val
}

/// The greatest of the counted values; 0 where none is counted.
pub fn max(input: AverageInputs) -> (result: u64)
    ensures
        is_prefix_max(input.values@, effective_count(input.count), result),
{
    let cnt: u8 = if input.count > MAX_VALUES {
        MAX_VALUES
    } else {
        input.count
    };
    if cnt == 0 {
        return 0;
    }
    let mut max_val: u64 = input.values[0];
    let mut i: u8 = 1;
    while i < cnt
        invariant
            1 <= i <= cnt <= MAX_VALUES,
            is_prefix_max(input.values@, i as nat, max_val),
        decreases cnt - i,
    {
        if input.values[i as usize] > max_val {
            max_val = input.values[i as usize];
        }
        i = i + 1;
    }
    max_val
}

/// A longer prefix has no smaller weighted sum.
pub proof fn lemma_weighted_prefix_sum_grows(
    values: Seq<u64>,
    weights: Seq<u8>,
    m: nat,
    n: nat,
)
    requires
        m <= n,
    ensures
        weighted_prefix_sum(values, weights, m) <= weighted_prefix_sum(values, weights, n),
    decreases n,
{
    if m < n {
        lemma_weighted_prefix_sum_grows(values, weights, m, (n - 1) as nat);
        assert((values[n - 1] as nat) * (weights[n - 1] as nat) >= 0) by (nonlinear_arith);
    }
}

/// The mean of five values, each counted as often as its weight says,
/// rounded down; 0 where all weights are 0.
pub fn weighted_average(input: WeightedAverageInputs) -> (result: u64)
    requires
        weighted_prefix_sum(input.values@, input.weights@, 5) <= u64::MAX,
    ensures
        weight_prefix_sum(input.weights@, 5) > 0 ==> result == weighted_prefix_sum(
            input.values@,
            input.weights@,
            5,
        ) / weight_prefix_sum(input.weights@, 5),
        weight_prefix_sum(input.weights@, 5) == 0 ==> result == 0,
{
    let mut weighted_sum: u64 = 0;
    let mut total_weight: u64 = 0;
    let mut i: usize = 0;
    while i < 5
        invariant
            i <= 5,
            weighted_sum == weighted_prefix_sum(input.values@, input.weights@, i as nat),
            total_weight == weight_prefix_sum(input.weights@, i as nat),
            total_weight <= 255 * i,
            weighted_prefix_sum(input.values@, input.weights@, 5) <= u64::MAX,
        decreases 5 - i,
    {
        proof {
            lemma_weighted_prefix_sum_grows(input.values@, input.weights@, (i + 1) as nat, 5);
        }
        let product: u64 = input.values[i] * (input.weights[i] as u64);
        weighted_sum = weighted_sum + product;
        total_weight = total_weight + input.weights[i] as u64;
        i = i + 1;
    }
    if total_weight > 0 {
        weighted_sum / total_weight
    } else {
        0
    }
}

} // verus!
