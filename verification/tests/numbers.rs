use sim::angle::{cos, sin, turned, HALF_PI, PI, TAU};
use sim::critters::from_polar;
use sim::entity::Vector;
use sim::fixed::{absolute, from_units, isqrt, magnitude, minus, plus, saturate, times, SCALE};

#[test]
fn whole_units() {
    assert_eq!(from_units(0), 0);
    assert_eq!(from_units(500), 500_000_000);
    assert_eq!(from_units(-3), -3_000_000);
    assert_eq!(from_units(i32::MAX), 2_147_483_647_000_000);
}

#[test]
fn sums_and_differences_saturate() {
    assert_eq!(plus(2, 3), 5);
    assert_eq!(plus(i64::MAX, 1), i64::MAX);
    assert_eq!(plus(i64::MIN, -1), i64::MIN);
    assert_eq!(minus(2, 3), -1);
    assert_eq!(minus(i64::MIN, 1), i64::MIN);
    assert_eq!(minus(i64::MAX, -1), i64::MAX);
    assert_eq!(minus(0, i64::MIN), i64::MAX);
    assert_eq!(saturate(i128::MAX), i64::MAX);
    assert_eq!(saturate(i128::MIN), i64::MIN);
    assert_eq!(saturate(-7), -7);
}

#[test]
fn products_round_toward_zero() {
    assert_eq!(times(3 * SCALE, 4 * SCALE), 12 * SCALE);
    assert_eq!(times(SCALE / 2, SCALE / 2), SCALE / 4);
    assert_eq!(times(1, 999_999), 0);
    assert_eq!(times(-1, 999_999), 0);
    assert_eq!(times(3, 500_000), 1);
    assert_eq!(times(-3, 500_000), -1);
    assert_eq!(times(3, -500_000), -1);
    assert_eq!(times(-3, -500_000), 1);
    assert_eq!(times(i64::MAX, i64::MAX), i64::MAX);
    assert_eq!(times(i64::MIN, i64::MAX), i64::MIN);
    assert_eq!(times(i64::MIN, i64::MIN), i64::MAX);
}

#[test]
fn square_roots_round_down() {
    assert_eq!(isqrt(0), 0);
    assert_eq!(isqrt(1), 1);
    assert_eq!(isqrt(3), 1);
    assert_eq!(isqrt(4), 2);
    assert_eq!(isqrt(24), 4);
    assert_eq!(isqrt(25), 5);
    assert_eq!(isqrt(1_000_000_000_000), 1_000_000);
    assert_eq!(isqrt(u128::MAX), u64::MAX);
    assert_eq!(isqrt((u64::MAX as u128) * (u64::MAX as u128) - 1), u64::MAX - 1);
}

#[test]
fn lengths_of_vectors() {
    assert_eq!(magnitude(3, 4), 5);
    assert_eq!(magnitude(-3 * SCALE, 4 * SCALE), 5 * SCALE as u64);
    assert_eq!(magnitude(0, 0), 0);
    assert_eq!(magnitude(1, 1), 1);
    assert_eq!(magnitude(i64::MIN, 0), 1 << 63);
    assert_eq!(magnitude(i64::MIN, i64::MIN), 13_043_817_825_332_782_212);
    assert_eq!(absolute(i64::MIN), 1 << 63);
    assert_eq!(absolute(-5), 5);
    assert_eq!(absolute(5), 5);
}

#[test]
fn sine_at_the_quarter_turns() {
    assert_eq!(sin(0), 0);
    assert_eq!(sin(HALF_PI), SCALE);
    assert_eq!(sin(PI), 0);
    assert_eq!(sin(PI + HALF_PI), -SCALE);
    assert_eq!(cos(0), SCALE);
    assert_eq!(cos(HALF_PI), 0);
    assert_eq!(cos(PI), -SCALE);
    assert_eq!(cos(PI + HALF_PI), 0);
}

#[test]
fn sine_between_the_quarter_turns() {
    // At an eighth of a turn the formula gives twelve seventeenths.
    assert_eq!(sin(PI / 4), 705_882);
    assert_eq!(cos(PI / 4), 705_882);
    assert_eq!(sin(PI + PI / 4), -705_882);
    assert_eq!(cos(PI - PI / 4), -705_882);
    assert_eq!(sin(PI / 6), 499_999);
    assert_eq!(cos(PI / 3), 500_000);
    assert_eq!(sin(1_000_000), 840_218);
}

#[test]
fn sine_is_close_to_the_true_sine() {
    let mut angle = 0;
    while angle < TAU {
        let truth = (angle as f64 / 1e6).sin() * 1e6;
        assert!((sin(angle) as f64 - truth).abs() < 2_000.0, "sine of {}", angle);
        let truth = (angle as f64 / 1e6).cos() * 1e6;
        assert!((cos(angle) as f64 - truth).abs() < 2_000.0, "cosine of {}", angle);
        angle += 1_234;
    }
}

#[test]
fn angles_turn_around() {
    assert_eq!(turned(0), 0);
    assert_eq!(turned(TAU), 0);
    assert_eq!(turned(TAU + 5), 5);
    assert_eq!(turned(-5), TAU - 5);
    assert_eq!(turned(-TAU), 0);
    assert_eq!(sin(-HALF_PI), -SCALE);
    assert_eq!(sin(TAU + HALF_PI), SCALE);
    assert_eq!(cos(-PI), -SCALE);
    assert_eq!(cos(i64::MAX), cos(turned(i64::MAX)));
    assert_eq!(sin(i64::MIN), sin(turned(i64::MIN)));
}

#[test]
fn velocity_from_heading_and_speed() {
    assert_eq!(from_polar(0, 10 * SCALE), Vector { x: 10 * SCALE, y: 0 });
    assert_eq!(from_polar(HALF_PI, 10 * SCALE), Vector { x: 0, y: 10 * SCALE });
    assert_eq!(from_polar(PI, 10 * SCALE), Vector { x: -10 * SCALE, y: 0 });
    assert_eq!(from_polar(PI + HALF_PI, 10 * SCALE), Vector { x: 0, y: -10 * SCALE });
    assert_eq!(from_polar(PI / 4, 17 * SCALE), Vector { x: 11_999_994, y: 11_999_994 });
    assert_eq!(from_polar(PI / 4, 0), Vector { x: 0, y: 0 });
    assert_eq!(from_polar(0, -10 * SCALE), Vector { x: -10 * SCALE, y: 0 });
}
