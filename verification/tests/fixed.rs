use time_decay_consensus::fixed::Fixed;

fn fx(x: f64) -> Fixed {
    Fixed::from_raw((x * 1e9).round() as i64)
}

fn float(x: Fixed) -> f64 {
    x.raw as f64 / 1e9
}

const MAX: Fixed = Fixed { raw: i64::MAX };
const MIN: Fixed = Fixed { raw: i64::MIN };

#[test]
fn fixed_constructors() {
    assert_eq!(Fixed::zero().raw, 0);
    assert_eq!(Fixed::one().raw, 1_000_000_000);
    assert_eq!(Fixed::from_raw(-7).raw, -7);
    assert_eq!(Fixed::from_int(3), fx(3.0));
    assert_eq!(Fixed::from_int(-3), fx(-3.0));
    assert_eq!(Fixed::from_int(i64::MAX), MAX);
    assert_eq!(Fixed::from_int(i64::MIN), MIN);
    assert_eq!(Fixed::from_ratio(1, 2), fx(0.5));
    assert_eq!(Fixed::from_ratio(1, 3).raw, 333_333_333);
    assert_eq!(Fixed::from_ratio(2, 3).raw, 666_666_666);
    assert_eq!(Fixed::from_ratio(0, 9).raw, 0);
    assert_eq!(Fixed::from_ratio(u64::MAX, 1), MAX);
}

#[test]
fn fixed_sums_saturate() {
    assert_eq!(fx(1.5).saturating_add(fx(2.25)), fx(3.75));
    assert_eq!(fx(1.5).saturating_sub(fx(2.25)), fx(-0.75));
    assert_eq!(MAX.saturating_add(Fixed::from_raw(1)), MAX);
    assert_eq!(MIN.saturating_sub(Fixed::from_raw(1)), MIN);
    assert_eq!(MIN.saturating_neg(), MAX);
    assert_eq!(MAX.saturating_neg(), Fixed::from_raw(i64::MIN + 1));
    assert_eq!(fx(2.0).saturating_neg(), fx(-2.0));
}

#[test]
fn fixed_products_cut_toward_zero() {
    assert_eq!(fx(100.0).saturating_mul(fx(0.8)), fx(80.0));
    assert_eq!(fx(-100.0).saturating_mul(fx(0.8)), fx(-80.0));
    assert_eq!(Fixed::from_raw(1).saturating_mul(fx(0.5)).raw, 0);
    assert_eq!(Fixed::from_raw(-1).saturating_mul(fx(0.5)).raw, 0);
    assert_eq!(Fixed::from_raw(3).saturating_mul(fx(0.5)).raw, 1);
    assert_eq!(Fixed::from_raw(-3).saturating_mul(fx(0.5)).raw, -1);
    assert_eq!(MAX.saturating_mul(fx(2.0)), MAX);
    assert_eq!(MAX.saturating_mul(fx(-2.0)), MIN);
    assert_eq!(MIN.saturating_mul(MIN), MAX);
    assert_eq!(fx(0.002).saturating_mul_int(60), fx(0.12));
    assert_eq!(fx(0.002).saturating_mul_int(-60), fx(-0.12));
    assert_eq!(fx(2.0).saturating_mul_int(i64::MAX), MAX);
    assert_eq!(fx(2.0).saturating_mul_int(i64::MIN), MIN);
}

#[test]
fn fixed_quotients_cut_toward_zero() {
    assert_eq!(fx(1.0).saturating_div(fx(4.0)), fx(0.25));
    assert_eq!(fx(1.0).saturating_div(fx(3.0)).raw, 333_333_333);
    assert_eq!(fx(-1.0).saturating_div(fx(3.0)).raw, -333_333_333);
    assert_eq!(fx(1.0).saturating_div(fx(-3.0)).raw, -333_333_333);
    assert_eq!(fx(-1.0).saturating_div(fx(-3.0)).raw, 333_333_333);
    assert_eq!(MAX.saturating_div(fx(0.5)), MAX);
    assert_eq!(MIN.saturating_div(fx(0.5)), MIN);
    assert_eq!(MIN.saturating_div(fx(-0.5)), MAX);
}

#[test]
fn fixed_order() {
    assert_eq!(fx(1.0).max(fx(2.0)), fx(2.0));
    assert_eq!(fx(1.0).min(fx(2.0)), fx(1.0));
    assert_eq!(fx(-1.0).max(fx(-2.0)), fx(-1.0));
    assert_eq!(fx(-1.0).min(fx(-2.0)), fx(-2.0));
    assert!(fx(0.1) < fx(0.2));
}

#[test]
fn exp_of_zero_is_one() {
    assert_eq!(Fixed::zero().exp(), Fixed::one());
}

#[test]
fn exp_follows_the_exponential() {
    for x in [-30.0f64, -20.0, -10.0, -5.0, -1.5, -1.0, -0.5, -0.001, 0.001, 0.5, 1.0, 2.0, 5.0, 10.0, 20.0, 22.5] {
        let got = float(fx(x).exp());
        let expected = x.exp();
        let tolerance = 1e-8 + expected * 1e-7;
        assert!((got - expected).abs() <= tolerance, "exp({}) = {} vs {}", x, got, expected);
    }
    assert_eq!(fx(1.0).exp().raw / 10, 271_828_182);
}

#[test]
fn exp_saturates_and_vanishes() {
    assert_eq!(fx(23.0).exp(), MAX);
    assert_eq!(MAX.exp(), MAX);
    assert_eq!(fx(-23.0).exp().raw, 0);
    assert_eq!(MIN.exp().raw, 0);
    assert_eq!(Fixed::from_raw(i64::MIN + 1).exp().raw, 0);
}

#[test]
fn exp_stays_within_its_bounds() {
    for raw in [-1i64, -999, -1_000_000_000, -50_000_000_000, i64::MIN] {
        let e = Fixed::from_raw(raw).exp();
        assert!(e >= Fixed::zero() && e <= Fixed::one());
    }
    for raw in [1i64, 999, 1_000_000_000, 50_000_000_000, i64::MAX] {
        assert!(Fixed::from_raw(raw).exp() >= Fixed::one());
    }
}
