use chrono::{DateTime, Utc};
use rust_decimal::prelude::ToPrimitive;
use rust_decimal::Decimal;
use time_decay_consensus::decimal::Amount;
use time_decay_consensus::fixed::Fixed;
use time_decay_consensus::progression::{ProgressionMode, ThresholdStrategy};
use time_decay_consensus::threshold::{EscalationType, ThresholdEscalator};
use time_decay_consensus::time::{Duration, Timestamp};
use time_decay_consensus::voting::{DecayType, Vote};
use time_decay_consensus::weight::{calculate_weight, Voter};
use time_decay_consensus::window::VotingWindow;

fn ts(t: DateTime<Utc>) -> Timestamp {
    Timestamp::new(t.timestamp(), t.timestamp_subsec_nanos()).unwrap()
}

fn fx(x: f64) -> Fixed {
    Fixed::from_raw((x * 1e9).round() as i64)
}

fn float(x: Fixed) -> f64 {
    x.raw as f64 / 1e9
}

#[test]
fn end_to_end_voting_simulation() {
    let start = Utc::now() - chrono::Duration::seconds(12);
    let window = VotingWindow::new(ts(start), Duration::seconds(10), Duration::seconds(5));
    let now = Utc::now();

    let voter = Voter {
        id: "alice".to_string(),
        base_weight: Amount::new(1000, 1),
        reputation_score: Some(Amount::new(3, 1)),
    };
    let weight = calculate_weight(&voter);
    let weight = Decimal::from_i128_with_scale(weight.mantissa, weight.scale);

    let vote = Vote {
        initial_weight: fx(weight.to_f64().unwrap()),
        timestamp: ts(now - chrono::Duration::seconds(8)),
    };

    let decayed = float(vote.current_weight(ts(now), DecayType::Exponential(fx(0.05))));
    assert!(decayed > 10.0);

    let escalator = ThresholdEscalator {
        base_threshold: fx(0.5),
        max_threshold: fx(0.9),
        start_time: ts(start),
        escalation: EscalationType::Exponential(fx(0.04)),
    };
    let threshold = float(escalator.current_threshold(ts(now)));

    let open = window.is_open(ts(now));
    let grace = window.is_in_grace_period(ts(now));
    let expired = window.is_expired(ts(now));

    let strategy = ThresholdStrategy {
        mode: ProgressionMode::Conservative,
        base_threshold: fx(0.5),
        max_threshold: fx(0.9),
        start_time: ts(start),
        min_votes: 1,
    };
    let meets = strategy.meets_min_votes(1);

    assert!(open || grace);
    assert!(!expired);
    assert!(threshold >= 0.5 && threshold <= 0.9);
    assert!(meets);
}

#[test]
fn weight_feeds_a_vote_without_loss() {
    let voter = Voter {
        id: "dave".to_string(),
        base_weight: Amount::new(80, 0),
        reputation_score: Some(Amount::new(3, 1)),
    };
    let vote = Vote {
        initial_weight: calculate_weight(&voter).to_fixed(),
        timestamp: Timestamp::new(0, 0).unwrap(),
    };
    assert_eq!(vote.initial_weight, fx(104.0));
    let now = Timestamp::new(2, 0).unwrap();
    assert_eq!(vote.current_weight(now, DecayType::Linear(fx(1.5))), fx(101.0));
}
