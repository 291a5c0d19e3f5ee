use chrono::{DateTime, Utc};
use time_decay_consensus::fixed::Fixed;
use time_decay_consensus::threshold::{EscalationType, ThresholdEscalator};
use time_decay_consensus::time::Timestamp;

fn ts(t: DateTime<Utc>) -> Timestamp {
    Timestamp::new(t.timestamp(), t.timestamp_subsec_nanos()).unwrap()
}

fn fx(x: f64) -> Fixed {
    Fixed::from_raw((x * 1e9).round() as i64)
}

fn float(x: Fixed) -> f64 {
    x.raw as f64 / 1e9
}

fn at(secs: i64) -> Timestamp {
    Timestamp::new(secs, 0).unwrap()
}

fn escalator(escalation: EscalationType) -> ThresholdEscalator {
    ThresholdEscalator {
        base_threshold: fx(0.5),
        max_threshold: fx(0.9),
        start_time: at(0),
        escalation,
    }
}

#[test]
fn test_linear_threshold() {
    let escalator = ThresholdEscalator {
        base_threshold: fx(0.5),
        max_threshold: fx(0.9),
        start_time: ts(Utc::now() - chrono::Duration::seconds(60)),
        escalation: EscalationType::Linear(fx(0.005)), // +0.5% per second
    };
    let now = ts(Utc::now());
    let current = float(escalator.current_threshold(now));
    assert!(current >= 0.5 && current <= 0.9);
}

#[test]
fn test_exponential_threshold() {
    let escalator = ThresholdEscalator {
        base_threshold: fx(0.5),
        max_threshold: fx(0.9),
        start_time: ts(Utc::now() - chrono::Duration::seconds(30)),
        escalation: EscalationType::Exponential(fx(0.05)),
    };
    let current = float(escalator.current_threshold(ts(Utc::now())));
    assert!(current > 0.5 && current < 0.9);
}

#[test]
fn test_custom_step_threshold() {
    let steps = vec![(10, fx(0.6)), (30, fx(0.7)), (60, fx(0.85))];
    let escalator = ThresholdEscalator {
        base_threshold: fx(0.5),
        max_threshold: fx(0.9),
        start_time: ts(Utc::now() - chrono::Duration::seconds(35)),
        escalation: EscalationType::CustomSteps(steps),
    };
    let current = float(escalator.current_threshold(ts(Utc::now())));
    assert_eq!(current, 0.7);
}

#[test]
fn linear_threshold_exact_values() {
    let e = escalator(EscalationType::Linear(fx(0.005)));
    assert_eq!(e.threshold_after_secs(0), fx(0.5));
    assert_eq!(e.threshold_after_secs(60), fx(0.8));
    assert_eq!(e.threshold_after_secs(80), fx(0.9));
    assert_eq!(e.threshold_after_secs(81), fx(0.9));
    assert_eq!(e.threshold_after_secs(i64::MAX), fx(0.9));
    assert_eq!(e.threshold_after_secs(-20), fx(0.4));
    assert_eq!(e.current_threshold(at(60)), fx(0.8));
}

#[test]
fn exponential_threshold_follows_the_formula() {
    let e = escalator(EscalationType::Exponential(fx(0.05)));
    for elapsed in [0i64, 1, 10, 30, 100, 500] {
        let got = float(e.threshold_after_secs(elapsed));
        let expected = 0.5 + 0.4 * (1.0 - (-0.05 * elapsed as f64).exp());
        assert!((got - expected).abs() < 1e-6, "{} vs {}", got, expected);
        assert!(got >= 0.5 && got <= 0.9);
    }
    assert_eq!(e.threshold_after_secs(0), fx(0.5));
    assert_eq!(e.threshold_after_secs(10_000), fx(0.9));
}

#[test]
fn sigmoid_threshold_follows_the_formula() {
    let e = escalator(EscalationType::Sigmoid(fx(0.1)));
    for elapsed in [0i64, 10, 49, 50, 51, 90, 200, 1_000] {
        let got = float(e.threshold_after_secs(elapsed));
        let x = -0.1 * (elapsed as f64 - 50.0);
        let expected = 0.5 + 0.4 / (1.0 + x.exp());
        assert!((got - expected).abs() < 1e-6, "{} vs {}", got, expected);
        assert!(got >= 0.5 && got <= 0.9);
    }
    assert_eq!(e.threshold_after_secs(50), fx(0.7));
    assert_eq!(e.threshold_after_secs(i64::MAX), fx(0.9));
    assert_eq!(e.threshold_after_secs(i64::MIN), fx(0.5));
}

#[test]
fn custom_steps_last_step_met_wins() {
    let e = escalator(EscalationType::CustomSteps(vec![
        (10, fx(0.6)),
        (30, fx(0.7)),
        (60, fx(0.85)),
    ]));
    assert_eq!(e.threshold_after_secs(0), fx(0.5));
    assert_eq!(e.threshold_after_secs(9), fx(0.5));
    assert_eq!(e.threshold_after_secs(10), fx(0.6));
    assert_eq!(e.threshold_after_secs(29), fx(0.6));
    assert_eq!(e.threshold_after_secs(30), fx(0.7));
    assert_eq!(e.threshold_after_secs(35), fx(0.7));
    assert_eq!(e.threshold_after_secs(60), fx(0.85));
    // list order decides, not time order
    let unordered = escalator(EscalationType::CustomSteps(vec![(30, fx(0.7)), (10, fx(0.6))]));
    assert_eq!(unordered.threshold_after_secs(35), fx(0.6));
    // a step above the cap is capped
    let above = escalator(EscalationType::CustomSteps(vec![(5, fx(0.95))]));
    assert_eq!(above.threshold_after_secs(5), fx(0.9));
    assert_eq!(escalator(EscalationType::CustomSteps(vec![])).threshold_after_secs(5), fx(0.5));
}

#[test]
fn threshold_never_exceeds_the_cap() {
    let escalators = [
        escalator(EscalationType::Linear(fx(10.0))),
        escalator(EscalationType::Exponential(fx(-0.5))),
        escalator(EscalationType::Sigmoid(fx(-3.0))),
        escalator(EscalationType::CustomSteps(vec![(0, fx(7.0))])),
    ];
    for e in escalators.iter() {
        for elapsed in [i64::MIN, -100, 0, 1, 50, 1_000, i64::MAX] {
            assert!(e.threshold_after_secs(elapsed) <= fx(0.9));
        }
    }
}

#[test]
fn emergency_override_is_one_half() {
    let e = escalator(EscalationType::Linear(fx(0.005)));
    assert_eq!(e.emergency_override(), fx(0.5));
    let other = ThresholdEscalator {
        base_threshold: fx(0.1),
        max_threshold: fx(0.2),
        start_time: at(77),
        escalation: EscalationType::Sigmoid(fx(2.0)),
    };
    assert_eq!(float(other.emergency_override()), 0.5);
}

#[test]
fn current_threshold_is_repeatable() {
    let e = escalator(EscalationType::Sigmoid(fx(0.2)));
    assert_eq!(e.current_threshold(at(40)), e.current_threshold(at(40)));
}
