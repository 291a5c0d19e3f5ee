//! The pass threshold of a proposal, rising from a base toward a cap as time
//! passes since the proposal opened.

use vstd::prelude::*;

use crate::fixed::{
    fx_add, fx_div, fx_exp, fx_min, fx_mul, fx_neg, fx_scale, fx_sub, lemma_exp_bounds,
    lemma_exp_of_zero, Fixed, ONE,
};
use crate::time::{elapsed_seconds, Timestamp};

verus! {

/// Seconds after the start at which the sigmoid reaches half of its rise.
pub const SIGMOID_MIDPOINT_SECS: i64 = 50;

/// Raw count of the fixed threshold of the emergency override, one half.
pub const EMERGENCY_THRESHOLD: i64 = 500_000_000;

/// How the threshold rises with the seconds elapsed.
#[derive(Debug, Clone)]
pub enum EscalationType {
    /// Rise per second.
    Linear(Fixed),
    /// Growth constant `k` of an approach to the cap.
    Exponential(Fixed),
    /// Steepness `k` of a sigmoid centred on [`SIGMOID_MIDPOINT_SECS`].
    Sigmoid(Fixed),
    /// Pairs of elapsed seconds and the threshold that holds from then on.
    CustomSteps(Vec<(i64, Fixed)>),
}

/// The threshold of one proposal: it starts at `base_threshold` when the
/// proposal opens at `start_time` and never exceeds `max_threshold`.
#[derive(Debug, Clone)]
pub struct ThresholdEscalator {
    pub base_threshold: Fixed,
    pub max_threshold: Fixed,
    pub start_time: Timestamp,
    pub escalation: EscalationType,
}

/// `base + rate * elapsed`.
pub open spec fn linear_threshold(base: int, rate: int, elapsed: int) -> int {
    fx_add(base, fx_scale(rate, elapsed))
}

/// `base + (max - base) * (1 - e^(-k * elapsed))`.
pub open spec fn exponential_threshold(base: int, max: int, k: int, elapsed: int) -> int {
    let fade = fx_exp(fx_scale(fx_neg(k), elapsed));
    fx_add(base, fx_mul(fx_sub(max, base), fx_sub(ONE as int, fade)))
}

/// `1 / (1 + e^(-k * (elapsed - 50)))`.
pub open spec fn sigmoid(k: int, elapsed: int) -> int {
    let tail = fx_exp(fx_scale(fx_neg(k), elapsed - SIGMOID_MIDPOINT_SECS));
    fx_div(ONE as int, fx_add(ONE as int, tail))
}

/// `base + (max - base) * sigmoid`.
pub open spec fn sigmoid_threshold(base: int, max: int, k: int, elapsed: int) -> int {
    fx_add(base, fx_mul(fx_sub(max, base), sigmoid(k, elapsed)))
}

/// The value of the last step, in list order, whose time has been reached;
/// `base` where none has.
pub open spec fn custom_threshold(base: int, steps: Seq<(i64, Fixed)>, elapsed: int) -> int
    decreases steps.len(),
{
    if steps.len() == 0 {
        base
    } else if steps.last().0 <= elapsed {
        steps.last().1@
    } else {
        custom_threshold(base, steps.drop_last(), elapsed)
    }
}

impl ThresholdEscalator {
    /// The threshold that the escalation function gives `elapsed` seconds
    /// after the start, before the cap is applied.
    pub open spec fn raw_threshold(&self, elapsed: int) -> int {
        let base = self.base_threshold@;
        let max = self.max_threshold@;
        match self.escalation {
            EscalationType::Linear(rate) => linear_threshold(base, rate@, elapsed),
            EscalationType::Exponential(k) => exponential_threshold(base, max, k@, elapsed),
            EscalationType::Sigmoid(k) => sigmoid_threshold(base, max, k@, elapsed),
            EscalationType::CustomSteps(steps) => custom_threshold(base, steps@, elapsed),
        }
    }

    /// The threshold `elapsed` seconds after the start: the raw threshold,
    /// capped at `max_threshold`.
    pub open spec fn threshold_after(&self, elapsed: int) -> int {
        fx_min(self.raw_threshold(elapsed), self.max_threshold@)
    }

    /// Whether the escalation function keeps the threshold at or above the
    /// base `elapsed` seconds after the start: a sigmoid does so always, an
    /// approach to the cap does so with a positive growth constant once the
    /// start has been reached.
    pub open spec fn rises_from_base(&self, elapsed: int) -> bool {
        match self.escalation {
            EscalationType::Exponential(k) => k@ > 0 && elapsed >= 0,
            EscalationType::Sigmoid(_) => true,
            _ => false,
        }
    }

    /// The threshold `elapsed_secs` whole seconds after the start.
    pub fn threshold_after_secs(&self, elapsed_secs: i64) -> (r: Fixed)
        ensures
            r@ == self.threshold_after(elapsed_secs as int),
            r@ <= self.max_threshold@,
            self.base_threshold@ <= self.max_threshold@ && self.rises_from_base(
                elapsed_secs as int,
            ) ==> r@ >= self.base_threshold@,
    {
        proof {
            lemma_threshold_bounds(*self, elapsed_secs as int);
        }
        let base = self.base_threshold;
        let max = self.max_threshold;
        let raw = match &self.escalation {
            EscalationType::Linear(rate) => base.saturating_add(
                rate.saturating_mul_int(elapsed_secs),
            ),
            EscalationType::Exponential(k) => {
                let fade = k.saturating_neg().saturating_mul_int(elapsed_secs).exp();
                let rise = max.saturating_sub(base).saturating_mul(Fixed::one().saturating_sub(fade));
                base.saturating_add(rise)
            },
            EscalationType::Sigmoid(k) => {
                let offset: i128 = (elapsed_secs as i128) - (SIGMOID_MIDPOINT_SECS as i128);
                let tail = k.saturating_neg().scaled(offset).exp();
                proof {
                    lemma_exp_bounds(fx_scale(fx_neg(k@), offset as int));
                }
                let share = Fixed::one().saturating_div(Fixed::one().saturating_add(tail));
                base.saturating_add(max.saturating_sub(base).saturating_mul(share))
            },
            EscalationType::CustomSteps(steps) => {
                let mut threshold = base;
                let mut i: usize = 0;
                while i < steps.len()
                    invariant
                        i <= steps.len(),
                        threshold@ == custom_threshold(
                            base@,
                            steps@.take(i as int),
                            elapsed_secs as int,
                        ),
                    decreases steps.len() - i,
                {
                    let step = steps[i];
                    assert(steps@.take(i + 1).drop_last() =~= steps@.take(i as int));
                    if elapsed_secs >= step.0 {
                        threshold = step.1;
                    }
                    i = i + 1;
                }
                assert(steps@.take(i as int) =~= steps@);
                threshold
            },
        };
        raw.min(max)
    }

    /// The threshold at `now`, from the whole seconds elapsed since
    /// `start_time`.
    pub fn current_threshold(&self, now: Timestamp) -> (r: Fixed)
        requires
            self.start_time.wf(),
            now.wf(),
        ensures
            r@ == self.threshold_after(elapsed_seconds(self.start_time, now)),
            r@ <= self.max_threshold@,
            self.base_threshold@ <= self.max_threshold@ && self.rises_from_base(
                elapsed_seconds(self.start_time, now),
            ) ==> r@ >= self.base_threshold@,
    {
        self.threshold_after_secs(now.seconds_since(self.start_time))
    }

    /// The fixed threshold that a caller may put in place of the computed
    /// one: one half, whatever the state of the escalator.
    pub fn emergency_override(&self) -> (r: Fixed)
        ensures
            r@ == EMERGENCY_THRESHOLD,
    {
        Fixed::from_raw(EMERGENCY_THRESHOLD)
    }
}

/// At the start itself a linear or exponential escalator gives exactly its
/// base threshold.
pub proof fn lemma_threshold_starts_at_base(escalator: ThresholdEscalator)
    requires
        escalator.base_threshold@ <= escalator.max_threshold@,
        escalator.escalation is Linear || escalator.escalation is Exponential,
    ensures
        escalator.threshold_after(0) == escalator.base_threshold@,
{
    let base = escalator.base_threshold@;
    let max = escalator.max_threshold@;
    match escalator.escalation {
        EscalationType::Linear(rate) => {
            assert(rate@ * 0 == 0) by (nonlinear_arith);
        },
        EscalationType::Exponential(k) => {
            assert(fx_neg(k@) * 0 == 0) by (nonlinear_arith);
            lemma_exp_of_zero();
            assert(fx_sub(max, base) * 0 == 0) by (nonlinear_arith);
        },
        _ => {},
    }
}

/// The threshold never exceeds the cap. Where the base is not above the cap,
/// an exponential escalator with a positive growth constant and no negative
/// elapsed time, and a sigmoid escalator always, never falls below the base
/// either.
pub proof fn lemma_threshold_bounds(escalator: ThresholdEscalator, elapsed: int)
    ensures
        escalator.threshold_after(elapsed) <= escalator.max_threshold@,
        escalator.base_threshold@ <= escalator.max_threshold@ && escalator.rises_from_base(
            elapsed,
        ) ==> escalator.threshold_after(elapsed) >= escalator.base_threshold@,
{
    let base = escalator.base_threshold@;
    let max = escalator.max_threshold@;
    if base <= max && escalator.rises_from_base(elapsed) {
        match escalator.escalation {
            EscalationType::Exponential(k) => {
                let power = fx_scale(fx_neg(k@), elapsed);
                assert(fx_neg(k@) * elapsed <= 0) by (nonlinear_arith)
                    requires
                        fx_neg(k@) < 0,
                        elapsed >= 0,
                ;
                lemma_exp_bounds(power);
                lemma_share_of_rise(base, max, fx_sub(ONE as int, fx_exp(power)));
            },
            EscalationType::Sigmoid(k) => {
                let power = fx_scale(fx_neg(k@), elapsed - SIGMOID_MIDPOINT_SECS);
                lemma_exp_bounds(power);
                let whole = fx_add(ONE as int, fx_exp(power));
                assert(0 <= (ONE * ONE) / whole <= ONE) by (nonlinear_arith)
                    requires
                        whole >= ONE,
                ;
                lemma_share_of_rise(base, max, sigmoid(k@, elapsed));
            },
            _ => {},
        }
    }
}

/// Adding a share between nothing and all of the distance from `base` to
/// `max` does not lead below `base`.
proof fn lemma_share_of_rise(base: int, max: int, share: int)
    requires
        i64::MIN <= base <= max <= i64::MAX,
        0 <= share <= ONE,
    ensures
        base <= fx_add(base, fx_mul(fx_sub(max, base), share)),
{
    let distance = fx_sub(max, base);
    assert(0 <= (distance * share) / (ONE as int)) by (nonlinear_arith)
        requires
            distance >= 0,
            share >= 0,
    ;
}

/// Where some step's time has been reached, the threshold is the value of
/// the last such step in list order.
pub proof fn lemma_custom_threshold_is_last_met(
    base: int,
    steps: Seq<(i64, Fixed)>,
    elapsed: int,
    i: int,
)
    requires
        0 <= i < steps.len(),
        steps[i].0 <= elapsed,
        forall|j: int| i < j < steps.len() ==> steps[j].0 > elapsed,
    ensures
        custom_threshold(base, steps, elapsed) == steps[i].1@,
    decreases steps.len(),
{
    if i < steps.len() - 1 {
        lemma_custom_threshold_is_last_met(base, steps.drop_last(), elapsed, i);
    }
}

/// Where no step's time has been reached, the threshold is the base.
pub proof fn lemma_custom_threshold_none_met(base: int, steps: Seq<(i64, Fixed)>, elapsed: int)
    requires
        forall|j: int| 0 <= j < steps.len() ==> steps[j].0 > elapsed,
    ensures
        custom_threshold(base, steps, elapsed) == base,
    decreases steps.len(),
{
    if steps.len() > 0 {
        lemma_custom_threshold_none_met(base, steps.drop_last(), elapsed);
    }
}

/// Two evaluations of one escalator at one instant give the same threshold.
pub proof fn lemma_current_threshold_repeatable(
    escalator: ThresholdEscalator,
    now: Timestamp,
    first: Fixed,
    second: Fixed,
)
    requires
        call_ensures(ThresholdEscalator::current_threshold, (&escalator, now), first),
        call_ensures(ThresholdEscalator::current_threshold, (&escalator, now), second),
    ensures
        first == second,
{
}

} // verus!
