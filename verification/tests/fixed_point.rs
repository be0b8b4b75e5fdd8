use elevator_optimization::fixed::{
    blend, distance, hold, minus, negate, over, plus, smaller, times, SCALE,
};

#[test]
fn scale_is_one_million() {
    assert_eq!(SCALE, 1_000_000);
}

#[test]
fn plus_adds_and_saturates() {
    assert_eq!(plus(1_500_000, 2_250_000), 3_750_000);
    assert_eq!(plus(-1_500_000, 500_000), -1_000_000);
    assert_eq!(plus(i64::MAX, 1), i64::MAX);
    assert_eq!(plus(i64::MIN, -1), i64::MIN);
}

#[test]
fn minus_subtracts_and_saturates() {
    assert_eq!(minus(1_500_000, 2_250_000), -750_000);
    assert_eq!(minus(i64::MIN, 1), i64::MIN);
    assert_eq!(minus(i64::MAX, -1), i64::MAX);
    assert_eq!(minus(0, i64::MIN), i64::MAX);
}

#[test]
fn negate_saturates_at_the_least_value() {
    assert_eq!(negate(3), -3);
    assert_eq!(negate(-3), 3);
    assert_eq!(negate(i64::MIN), i64::MAX);
    assert_eq!(negate(i64::MAX), i64::MIN + 1);
}

#[test]
fn times_rounds_toward_zero() {
    assert_eq!(times(2_000_000, 3_500_000), 7_000_000);
    assert_eq!(times(1_500_000, 1_000_001), 1_500_001);
    assert_eq!(times(-1_500_000, 1_000_001), -1_500_001);
    assert_eq!(times(1_500_000, -1_000_001), -1_500_001);
    assert_eq!(times(-1_500_000, -1_000_001), 1_500_001);
    assert_eq!(times(1, 999_999), 0);
    assert_eq!(times(-1, 999_999), 0);
    assert_eq!(times(0, i64::MIN), 0);
}

#[test]
fn times_saturates() {
    assert_eq!(times(i64::MAX, 2_000_000), i64::MAX);
    assert_eq!(times(i64::MAX, -2_000_000), i64::MIN);
    assert_eq!(times(i64::MIN, i64::MIN), i64::MAX);
    assert_eq!(times(i64::MIN, 1_000_000), i64::MIN);
    assert_eq!(times(i64::MIN, -1_000_000), i64::MAX);
}

#[test]
fn over_rounds_toward_zero() {
    assert_eq!(over(1_000_000, 3_000_000), 333_333);
    assert_eq!(over(-1_000_000, 3_000_000), -333_333);
    assert_eq!(over(1_000_000, -3_000_000), -333_333);
    assert_eq!(over(-1_000_000, -3_000_000), 333_333);
    assert_eq!(over(SCALE, 10 * SCALE), 100_000);
    assert_eq!(over(0, -5), 0);
}

#[test]
fn over_saturates() {
    assert_eq!(over(i64::MAX, 1), i64::MAX);
    assert_eq!(over(i64::MIN, 1), i64::MIN);
    assert_eq!(over(i64::MIN, -1), i64::MAX);
    assert_eq!(over(i64::MIN, i64::MIN), 1_000_000);
}

#[test]
fn blend_interpolates_and_extrapolates() {
    assert_eq!(blend(0, 100_000_000, 5_000_000, 0, 10_000_000), 50_000_000);
    assert_eq!(blend(100_000_000, 0, 2_500_000, 0, 10_000_000), 75_000_000);
    assert_eq!(blend(0, 100_000_000, -5_000_000, 0, 10_000_000), -50_000_000);
    assert_eq!(blend(0, 100_000_000, 15_000_000, 0, 10_000_000), 150_000_000);
    assert_eq!(blend(0, 10, 1, 0, 3), 3);
    assert_eq!(blend(0, -10, 1, 0, 3), -3);
}

#[test]
fn blend_on_a_segment_without_length_is_its_first_value() {
    assert_eq!(blend(7, 9, 123, 5, 5), 7);
}

#[test]
fn blend_saturates() {
    assert_eq!(blend(i64::MIN, i64::MAX, i64::MAX, 0, 1), i64::MAX);
    assert_eq!(blend(i64::MAX, i64::MIN, i64::MAX, 0, 1), i64::MIN);
    assert_eq!(blend(i64::MIN, i64::MAX, i64::MAX, i64::MIN, i64::MAX), i64::MAX);
    assert_eq!(blend(i64::MIN, i64::MAX, i64::MIN, i64::MIN, i64::MAX), i64::MIN);
}

#[test]
fn distance_is_exact_over_the_whole_range() {
    assert_eq!(distance(3, 10), 7);
    assert_eq!(distance(10, 3), 7);
    assert_eq!(distance(i64::MIN, i64::MAX), u64::MAX as u128);
    assert_eq!(distance(i64::MAX, i64::MIN), u64::MAX as u128);
}

#[test]
fn smaller_picks_the_lesser() {
    assert_eq!(smaller(3, 7), 3);
    assert_eq!(smaller(7, 3), 3);
    assert_eq!(smaller(-7, 3), -7);
}

#[test]
fn hold_keeps_a_value_between_two_bounds() {
    assert_eq!(hold(5, 0, 10), 5);
    assert_eq!(hold(-5, 0, 10), 0);
    assert_eq!(hold(15, 0, 10), 10);
    assert_eq!(hold(0, 0, 10), 0);
    assert_eq!(hold(10, 0, 10), 10);
    // where the bounds cross, a value below the lower one gets it, any other the upper one
    assert_eq!(hold(5, 10, 0), 10);
    assert_eq!(hold(15, 10, 0), 0);
}
