use flaek_mxe::circuits::{
    abs_diff, add, and, average, credit_score, divide, equal, greater_equal, greater_than,
    health_risk, if_else, in_range, less_equal, less_than, max, median, meets_threshold, min,
    modulo, multiply, not, or, power, subtract, sum, vote_tally, weighted_average, xor,
    AbsDiffInputs, AddInputs, AverageInputs, CompareInputs, ConditionalInputs, CreditScoreInputs,
    CreditScoreOutput, DivideInputs, HealthRiskInputs, HealthRiskOutput, LogicalInputs,
    ModuloInputs, MultiplyInputs, NotInputs, PowerInputs, RangeCheckInputs, SubtractInputs,
    ThresholdInputs, VoteInputs, WeightedAverageInputs,
};

fn stats(values: [u64; 10], count: u8) -> AverageInputs {
    AverageInputs { values, count }
}

fn weighted(values: [u64; 5], weights: [u8; 5]) -> u64 {
    weighted_average(WeightedAverageInputs { values, weights })
}

fn credit(income: u64, debt: u64, credit_history: u8, missed_payments: u8) -> CreditScoreOutput {
    credit_score(CreditScoreInputs { income, debt, credit_history, missed_payments })
}

fn health(
    age: u8,
    bmi: u8,
    smoker: u8,
    exercise_hours: u8,
    family_history: u8,
) -> HealthRiskOutput {
    health_risk(HealthRiskInputs { age, bmi, smoker, exercise_hours, family_history })
}

#[test]
fn add_sums() {
    assert_eq!(add(AddInputs { a: 2, b: 3 }), 5);
    assert_eq!(add(AddInputs { a: 0, b: 0 }), 0);
    assert_eq!(add(AddInputs { a: u64::MAX - 1, b: 1 }), u64::MAX);
}

#[test]
fn subtract_stops_at_zero() {
    assert_eq!(subtract(SubtractInputs { a: 10, b: 3 }), 7);
    assert_eq!(subtract(SubtractInputs { a: 3, b: 10 }), 0);
    assert_eq!(subtract(SubtractInputs { a: 5, b: 5 }), 0);
    assert_eq!(subtract(SubtractInputs { a: u64::MAX, b: 0 }), u64::MAX);
}

#[test]
fn multiply_multiplies() {
    assert_eq!(multiply(MultiplyInputs { a: 6, b: 7 }), 42);
    assert_eq!(multiply(MultiplyInputs { a: 0, b: u64::MAX }), 0);
    assert_eq!(multiply(MultiplyInputs { a: 1 << 32, b: (1 << 32) - 1 }), u64::MAX - (1 << 32) + 1);
}

#[test]
fn divide_by_zero_is_zero() {
    assert_eq!(divide(DivideInputs { a: 42, b: 0 }), 0);
    assert_eq!(divide(DivideInputs { a: 0, b: 0 }), 0);
    assert_eq!(divide(DivideInputs { a: 42, b: 5 }), 8);
    assert_eq!(divide(DivideInputs { a: 4, b: 5 }), 0);
    assert_eq!(divide(DivideInputs { a: u64::MAX, b: 1 }), u64::MAX);
}

#[test]
fn modulo_by_zero_is_zero() {
    assert_eq!(modulo(ModuloInputs { a: 42, b: 0 }), 0);
    assert_eq!(modulo(ModuloInputs { a: 42, b: 5 }), 2);
    assert_eq!(modulo(ModuloInputs { a: 4, b: 5 }), 4);
    assert_eq!(modulo(ModuloInputs { a: 40, b: 5 }), 0);
}

#[test]
fn power_caps_the_exponent_at_ten() {
    assert_eq!(power(PowerInputs { base: 2, exponent: 0 }), 1);
    assert_eq!(power(PowerInputs { base: 0, exponent: 0 }), 1);
    assert_eq!(power(PowerInputs { base: 0, exponent: 3 }), 0);
    assert_eq!(power(PowerInputs { base: 2, exponent: 10 }), 1024);
    assert_eq!(power(PowerInputs { base: 2, exponent: 11 }), 1024);
    assert_eq!(power(PowerInputs { base: 2, exponent: 255 }), 1024);
    assert_eq!(power(PowerInputs { base: 3, exponent: 4 }), 81);
    assert_eq!(power(PowerInputs { base: 84, exponent: 10 }), 17490122876598091776);
    assert_eq!(power(PowerInputs { base: u64::MAX, exponent: 1 }), u64::MAX);
    assert_eq!(power(PowerInputs { base: 1, exponent: 200 }), 1);
}

#[test]
fn abs_diff_is_symmetric() {
    assert_eq!(abs_diff(AbsDiffInputs { a: 10, b: 3 }), 7);
    assert_eq!(abs_diff(AbsDiffInputs { a: 3, b: 10 }), 7);
    assert_eq!(abs_diff(AbsDiffInputs { a: 3, b: 3 }), 0);
    assert_eq!(abs_diff(AbsDiffInputs { a: 0, b: u64::MAX }), u64::MAX);
}

#[test]
fn comparisons_answer_one_or_zero() {
    let cases = [(1u64, 2u64), (2, 1), (2, 2), (0, u64::MAX)];
    for (a, b) in cases {
        assert_eq!(greater_than(CompareInputs { a, b }), (a > b) as u8);
        assert_eq!(less_than(CompareInputs { a, b }), (a < b) as u8);
        assert_eq!(equal(CompareInputs { a, b }), (a == b) as u8);
        assert_eq!(greater_equal(CompareInputs { a, b }), (a >= b) as u8);
        assert_eq!(less_equal(CompareInputs { a, b }), (a <= b) as u8);
        assert_eq!(meets_threshold(ThresholdInputs { value: a, threshold: b }), (a >= b) as u8);
    }
    assert_eq!(greater_than(CompareInputs { a: 2, b: 2 }), 0);
    assert_eq!(greater_equal(CompareInputs { a: 2, b: 2 }), 1);
    assert_eq!(less_equal(CompareInputs { a: 3, b: 2 }), 0);
}

#[test]
fn in_range_includes_both_ends() {
    assert_eq!(in_range(RangeCheckInputs { value: 5, min: 5, max: 10 }), 1);
    assert_eq!(in_range(RangeCheckInputs { value: 10, min: 5, max: 10 }), 1);
    assert_eq!(in_range(RangeCheckInputs { value: 7, min: 5, max: 10 }), 1);
    assert_eq!(in_range(RangeCheckInputs { value: 4, min: 5, max: 10 }), 0);
    assert_eq!(in_range(RangeCheckInputs { value: 11, min: 5, max: 10 }), 0);
    assert_eq!(in_range(RangeCheckInputs { value: 7, min: 10, max: 5 }), 0);
}

#[test]
fn logic_treats_any_nonzero_as_true() {
    for (a, b) in [(0u8, 0u8), (0, 1), (1, 0), (1, 1), (7, 0), (0, 255), (7, 255)] {
        let (x, y) = (a != 0, b != 0);
        assert_eq!(and(LogicalInputs { a, b }), (x && y) as u8);
        assert_eq!(or(LogicalInputs { a, b }), (x || y) as u8);
        assert_eq!(xor(LogicalInputs { a, b }), (x != y) as u8);
        assert_eq!(not(NotInputs { a }), (!x) as u8);
    }
    assert_eq!(xor(LogicalInputs { a: 3, b: 9 }), 0);
    assert_eq!(not(NotInputs { a: 0 }), 1);
    assert_eq!(not(NotInputs { a: 200 }), 0);
}

#[test]
fn if_else_selects_by_condition() {
    assert_eq!(if_else(ConditionalInputs { condition: 1, true_value: 10, false_value: 20 }), 10);
    assert_eq!(if_else(ConditionalInputs { condition: 0, true_value: 10, false_value: 20 }), 20);
    assert_eq!(if_else(ConditionalInputs { condition: 255, true_value: 10, false_value: 20 }), 10);
}

#[test]
fn vote_tally_passes_the_vote_through() {
    assert_eq!(vote_tally(VoteInputs { vote: 0 }), 0);
    assert_eq!(vote_tally(VoteInputs { vote: 1 }), 1);
    assert_eq!(vote_tally(VoteInputs { vote: 255 }), 255);
}

#[test]
fn sum_counts_only_the_first_values() {
    let values = [1, 2, 3, 4, 5, 6, 7, 8, 9, 10];
    assert_eq!(sum(stats(values, 0)), 0);
    assert_eq!(sum(stats(values, 1)), 1);
    assert_eq!(sum(stats(values, 4)), 10);
    assert_eq!(sum(stats(values, 10)), 55);
    assert_eq!(sum(stats(values, 11)), 55);
    assert_eq!(sum(stats(values, 255)), 55);
    assert_eq!(sum(stats([u64::MAX, 5, 0, 0, 0, 0, 0, 0, 0, 0], 1)), u64::MAX);
}

#[test]
fn average_rounds_down_and_is_zero_of_nothing() {
    let values = [1, 2, 3, 4, 5, 6, 7, 8, 9, 10];
    assert_eq!(average(stats(values, 0)), 0);
    assert_eq!(average(stats(values, 1)), 1);
    assert_eq!(average(stats(values, 2)), 1);
    assert_eq!(average(stats(values, 4)), 2);
    assert_eq!(average(stats(values, 10)), 5);
    assert_eq!(average(stats(values, 200)), 5);
    assert_eq!(average(stats([10, 20, 30, 0, 0, 0, 0, 0, 0, 0], 3)), 20);
}

#[test]
fn median_is_the_mean_of_the_counted_values() {
    let values = [1, 100, 2, 0, 0, 0, 0, 0, 0, 0];
    assert_eq!(median(stats(values, 3)), 34);
    assert_eq!(median(stats(values, 0)), 0);
    assert_eq!(median(stats([1, 2, 3, 4, 5, 6, 7, 8, 9, 10], 10)), 5);
}

#[test]
fn min_and_max_of_the_counted_values() {
    let values = [5, 3, 9, 1, 7, 0, 100, 2, 8, 6];
    assert_eq!(min(stats(values, 0)), 0);
    assert_eq!(max(stats(values, 0)), 0);
    assert_eq!(min(stats(values, 1)), 5);
    assert_eq!(max(stats(values, 1)), 5);
    assert_eq!(min(stats(values, 3)), 3);
    assert_eq!(max(stats(values, 3)), 9);
    assert_eq!(min(stats(values, 5)), 1);
    assert_eq!(min(stats(values, 6)), 0);
    assert_eq!(max(stats(values, 6)), 9);
    assert_eq!(max(stats(values, 7)), 100);
    assert_eq!(min(stats(values, 10)), 0);
    assert_eq!(max(stats(values, 10)), 100);
    assert_eq!(max(stats(values, 99)), 100);
    assert_eq!(min(stats([u64::MAX; 10], 10)), u64::MAX);
}

#[test]
fn weighted_average_divides_by_the_total_weight() {
    assert_eq!(weighted([10, 20, 30, 40, 50], [1, 1, 1, 1, 1]), 30);
    assert_eq!(weighted([10, 20, 30, 40, 50], [0, 0, 0, 0, 0]), 0);
    assert_eq!(weighted([10, 20, 30, 40, 50], [0, 0, 0, 0, 7]), 50);
    assert_eq!(weighted([1, 2, 3, 4, 5], [5, 4, 3, 2, 1]), 2);
    assert_eq!(weighted([100, 0, 0, 0, 1], [255, 0, 0, 0, 255]), 50);
}

#[test]
fn credit_score_examples() {
    assert_eq!(credit(100000, 10000, 10, 0), CreditScoreOutput { score: 800, approved: 1 });
    assert_eq!(credit(50000, 15000, 4, 1), CreditScoreOutput { score: 690, approved: 0 });
    assert_eq!(credit(5000, 1000, 20, 1), CreditScoreOutput { score: 770, approved: 1 });
    assert_eq!(credit(0, 0, 0, 0), CreditScoreOutput { score: 550, approved: 0 });
}

#[test]
fn credit_score_debt_ratio_thresholds() {
    assert_eq!(credit(100, 19, 0, 0), CreditScoreOutput { score: 750, approved: 1 });
    assert_eq!(credit(100, 20, 0, 0), CreditScoreOutput { score: 700, approved: 1 });
    assert_eq!(credit(100, 34, 0, 0), CreditScoreOutput { score: 700, approved: 1 });
    assert_eq!(credit(100, 35, 0, 0), CreditScoreOutput { score: 650, approved: 0 });
    assert_eq!(credit(100, 50, 0, 0), CreditScoreOutput { score: 650, approved: 0 });
    assert_eq!(credit(100, 51, 0, 0), CreditScoreOutput { score: 550, approved: 0 });
    assert_eq!(credit(100, 42, 10, 0), CreditScoreOutput { score: 700, approved: 1 });
    assert_eq!(credit(100, 43, 40, 0), CreditScoreOutput { score: 850, approved: 0 });
}

#[test]
fn credit_score_stays_between_300_and_850() {
    assert_eq!(credit(1000, 600, 255, 0), CreditScoreOutput { score: 850, approved: 0 });
    assert_eq!(credit(1000, 0, 0, 255), CreditScoreOutput { score: 300, approved: 0 });
    assert_eq!(credit(1000, 0, 255, 255), CreditScoreOutput { score: 300, approved: 0 });
    assert_eq!(credit(1000, 0, 255, 0), CreditScoreOutput { score: 850, approved: 1 });
}

#[test]
fn credit_score_keeps_the_debt_ratio_to_sixteen_bits() {
    assert_eq!(credit(100, 65551, 0, 0), CreditScoreOutput { score: 750, approved: 1 });
    assert_eq!(credit(100, 65535, 0, 0), CreditScoreOutput { score: 550, approved: 0 });
    assert_eq!(credit(3, 184467440737095516, 0, 0), CreditScoreOutput { score: 550, approved: 0 });
}

#[test]
fn health_risk_examples() {
    assert_eq!(health(30, 22, 0, 3, 0), HealthRiskOutput { risk_score: 0, risk_category: 0 });
    assert_eq!(health(70, 35, 1, 0, 1), HealthRiskOutput { risk_score: 100, risk_category: 3 });
    assert_eq!(health(70, 35, 1, 5, 1), HealthRiskOutput { risk_score: 80, risk_category: 3 });
    assert_eq!(health(60, 28, 1, 1, 0), HealthRiskOutput { risk_score: 65, risk_category: 2 });
    assert_eq!(
        health(255, 255, 255, 255, 255),
        HealthRiskOutput { risk_score: 80, risk_category: 3 }
    );
}

#[test]
fn health_risk_thresholds() {
    assert_eq!(health(36, 25, 0, 2, 0), HealthRiskOutput { risk_score: 10, risk_category: 0 });
    assert_eq!(health(65, 30, 0, 4, 0), HealthRiskOutput { risk_score: 30, risk_category: 1 });
    assert_eq!(health(51, 31, 0, 1, 0), HealthRiskOutput { risk_score: 50, risk_category: 2 });
    assert_eq!(health(66, 17, 1, 4, 1), HealthRiskOutput { risk_score: 90, risk_category: 3 });
    assert_eq!(health(50, 18, 0, 1, 1), HealthRiskOutput { risk_score: 35, risk_category: 1 });
    assert_eq!(health(20, 20, 0, 0, 1), HealthRiskOutput { risk_score: 25, risk_category: 1 });
    assert_eq!(health(20, 20, 1, 2, 0), HealthRiskOutput { risk_score: 25, risk_category: 1 });
}

#[test]
fn exercise_never_takes_the_risk_below_zero() {
    assert_eq!(health(20, 20, 0, 10, 0), HealthRiskOutput { risk_score: 0, risk_category: 0 });
    assert_eq!(health(40, 26, 0, 5, 0), HealthRiskOutput { risk_score: 10, risk_category: 0 });
    assert_eq!(health(40, 20, 0, 5, 0), HealthRiskOutput { risk_score: 0, risk_category: 0 });
    assert_eq!(health(40, 20, 0, 5, 1), HealthRiskOutput { risk_score: 15, risk_category: 0 });
}
