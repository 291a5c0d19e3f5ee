//! The weight of a cast vote, decaying as time passes since it was cast.

use vstd::prelude::*;

use crate::fixed::{fx_exp, fx_max, fx_mul, fx_neg, fx_scale, fx_sub, Fixed};
use crate::time::{elapsed_seconds, Timestamp};

verus! {

/// Raw count of the share of its initial weight that a vote always keeps,
/// one tenth.
pub const FLOOR_SHARE: i64 = 100_000_000;

/// How the weight of a vote falls off with the seconds elapsed.
#[derive(Debug, Clone)]
pub enum DecayType {
    /// Decay constant `k`.
    Exponential(Fixed),
    /// Weight lost per second.
    Linear(Fixed),
    /// Pairs of elapsed seconds and the multiplier that applies from then on.
    Stepped(Vec<(i64, Fixed)>),
}

/// A vote of weight `initial_weight`, cast at `timestamp`.
#[derive(Debug)]
pub struct Vote {
    pub initial_weight: Fixed,
    pub timestamp: Timestamp,
}

/// `initial * e^(-k * elapsed)`.
pub open spec fn exponential_decay(initial: int, k: int, elapsed: int) -> int {
    fx_mul(initial, fx_exp(fx_scale(fx_neg(k), elapsed)))
}

/// `max(initial - k * elapsed, 0)`.
pub open spec fn linear_decay(initial: int, k: int, elapsed: int) -> int {
    fx_max(fx_sub(initial, fx_scale(k, elapsed)), 0)
}

/// `initial` multiplied, in list order, by the multiplier of every step
/// whose time has been reached.
pub open spec fn stepped_decay(initial: int, steps: Seq<(i64, Fixed)>, elapsed: int) -> int
    decreases steps.len(),
{
    if steps.len() == 0 {
        initial
    } else {
        let before = stepped_decay(initial, steps.drop_last(), elapsed);
        if steps.last().0 <= elapsed {
            fx_mul(before, steps.last().1@)
        } else {
            before
        }
    }
}

/// The weight below which a vote of weight `initial` never falls.
pub open spec fn weight_floor(initial: int) -> int {
    fx_mul(initial, FLOOR_SHARE as int)
}

impl Vote {
    /// The weight that the decay function gives `elapsed` seconds after the
    /// vote was cast, before the floor is applied.
    pub open spec fn raw_weight(&self, decay: DecayType, elapsed: int) -> int {
        let initial = self.initial_weight@;
        match decay {
            DecayType::Exponential(k) => exponential_decay(initial, k@, elapsed),
            DecayType::Linear(k) => linear_decay(initial, k@, elapsed),
            DecayType::Stepped(steps) => stepped_decay(initial, steps@, elapsed),
        }
    }

    /// The weight `elapsed` seconds after the vote was cast: the raw weight,
    /// but no less than the floor.
    pub open spec fn weight_after(&self, decay: DecayType, elapsed: int) -> int {
        fx_max(self.raw_weight(decay, elapsed), weight_floor(self.initial_weight@))
    }

    /// The weight `elapsed_secs` whole seconds after the vote was cast.
    pub fn weight_after_secs(&self, elapsed_secs: i64, decay: &DecayType) -> (r: Fixed)
        ensures
            r@ == self.weight_after(*decay, elapsed_secs as int),
            r@ >= weight_floor(self.initial_weight@),
    {
        let initial = self.initial_weight;
        let raw = match decay {
            DecayType::Exponential(k) => initial.saturating_mul(
                k.saturating_neg().saturating_mul_int(elapsed_secs).exp(),
            ),
            DecayType::Linear(k) => initial.saturating_sub(k.saturating_mul_int(elapsed_secs)).max(
                Fixed::zero(),
            ),
            DecayType::Stepped(steps) => {
                let mut weight = initial;
                let mut i: usize = 0;
                while i < steps.len()
                    invariant
                        i <= steps.len(),
                        weight@ == stepped_decay(
                            initial@,
                            steps@.take(i as int),
                            elapsed_secs as int,
                        ),
                    decreases steps.len() - i,
                {
                    let step = steps[i];
                    assert(steps@.take(i + 1).drop_last() =~= steps@.take(i as int));
                    if elapsed_secs >= step.0 {
                        weight = weight.saturating_mul(step.1);
                    }
                    i = i + 1;
                }
                assert(steps@.take(i as int) =~= steps@);
                weight
            },
        };
        raw.max(initial.saturating_mul(Fixed::from_raw(FLOOR_SHARE)))
    }

    /// The weight at `now`, from the whole seconds elapsed since the vote
    /// was cast.
    pub fn current_weight(&self, now: Timestamp, decay: DecayType) -> (r: Fixed)
        requires
            self.timestamp.wf(),
            now.wf(),
        ensures
            r@ == self.weight_after(decay, elapsed_seconds(self.timestamp, now)),
            r@ >= weight_floor(self.initial_weight@),
    {
        self.weight_after_secs(now.seconds_since(self.timestamp), &decay)
    }
}

/// A vote never weighs less than a tenth of its initial weight, whatever the
/// decay function and the time elapsed.
pub proof fn lemma_weight_never_below_floor(vote: Vote, decay: DecayType, elapsed: int)
    ensures
        vote.weight_after(decay, elapsed) >= weight_floor(vote.initial_weight@),
{
}

/// Where no step's time has been reached, a stepped decay leaves the weight
/// as it was.
pub proof fn lemma_stepped_decay_none_met(initial: int, steps: Seq<(i64, Fixed)>, elapsed: int)
    requires
        forall|j: int| 0 <= j < steps.len() ==> steps[j].0 > elapsed,
    ensures
        stepped_decay(initial, steps, elapsed) == initial,
    decreases steps.len(),
{
    if steps.len() > 0 {
        lemma_stepped_decay_none_met(initial, steps.drop_last(), elapsed);
    }
}

/// A further step multiplies the weight reached so far where its time has
/// been reached, and leaves it unchanged where not.
pub proof fn lemma_stepped_decay_composes(
    initial: int,
    steps: Seq<(i64, Fixed)>,
    step: (i64, Fixed),
    elapsed: int,
)
    ensures
        stepped_decay(initial, steps.push(step), elapsed) == if step.0 <= elapsed {
            fx_mul(stepped_decay(initial, steps, elapsed), step.1@)
        } else {
            stepped_decay(initial, steps, elapsed)
        },
{
    assert(steps.push(step).drop_last() =~= steps);
}

/// Two evaluations of one vote at one instant under one decay function give
/// the same weight.
pub proof fn lemma_current_weight_repeatable(
    vote: Vote,
    now: Timestamp,
    decay: DecayType,
    first: Fixed,
    second: Fixed,
)
    requires
        call_ensures(Vote::current_weight, (&vote, now, decay), first),
        call_ensures(Vote::current_weight, (&vote, now, decay), second),
    ensures
        first == second,
{
}

} // verus!
