//! The effective weight of a voter: the base weight, raised by a bonus for
//! reputation that is capped at one half.

use vstd::prelude::*;

use crate::decimal::{decimal_product, decimal_sum, Amount};
use crate::time::Timestamp;

verus! {

/// A voter with a base weight and, where known, a reputation score.
#[derive(Debug, Clone)]
pub struct Voter {
    pub id: String,
    pub base_weight: Amount,
    /// Between zero and one; a score above one half counts as one half.
    pub reputation_score: Option<Amount>,
}

/// What is kept of a counted vote.
#[derive(Debug)]
pub struct VoteRecord {
    pub voter_id: String,
    pub vote_time: Timestamp,
    pub final_weight: Amount,
}

/// The amount `1.0`.
pub open spec fn unit() -> Amount {
    Amount { mantissa: 10, scale: 1 }
}

/// The amount `0.5`, the largest bonus.
pub open spec fn bonus_cap() -> Amount {
    Amount { mantissa: 5, scale: 1 }
}

/// `1 + min(reputation, 0.5)`, where that sum does not overflow.
pub open spec fn bonus_factor(reputation: Amount) -> Option<Amount> {
    decimal_sum(unit(), reputation.spec_min(bonus_cap()))
}

/// `base * (1 + min(reputation, 0.5))`, where neither the sum nor the
/// product overflows.
pub open spec fn boosted_weight(base: Amount, reputation: Amount) -> Option<Amount> {
    match bonus_factor(reputation) {
        Some(factor) => decimal_product(base, factor),
        None => None,
    }
}

impl Voter {
    /// Both amounts are in range.
    pub open spec fn wf(&self) -> bool {
        &&& self.base_weight.wf()
        &&& self.reputation_score matches Some(reputation) ==> reputation.wf()
    }

    /// The effective weight: the base weight where there is no reputation
    /// score, the boosted weight where there is one, and `None` where the
    /// boosted weight overflows.
    pub open spec fn effective_weight(&self) -> Option<Amount> {
        match self.reputation_score {
            Some(reputation) => boosted_weight(self.base_weight, reputation),
            None => Some(self.base_weight),
        }
    }
}

/// The effective weight of `voter`, which has to exist.
pub fn calculate_weight(voter: &Voter) -> (weight: Amount)
    requires
        voter.wf(),
        voter.effective_weight() is Some,
    ensures
        Some(weight) == voter.effective_weight(),
        voter.reputation_score is None ==> weight == voter.base_weight,
        weight.wf(),
{
    let base = voter.base_weight;
    match voter.reputation_score {
        Some(reputation) => {
            let bonus = reputation.min(Amount::new(5, 1));
            let factor = Amount::new(10, 1).checked_add(bonus).unwrap();
            base.checked_mul(factor).unwrap()
        },
        None => base,
    }
}

/// The effective weight of `voter`, or `None` where it overflows.
pub fn checked_calculate_weight(voter: &Voter) -> (weight: Option<Amount>)
    requires
        voter.wf(),
    ensures
        weight == voter.effective_weight(),
        weight matches Some(w) ==> w.wf(),
{
    match voter.reputation_score {
        Some(reputation) => {
            let bonus = reputation.min(Amount::new(5, 1));
            match Amount::new(10, 1).checked_add(bonus) {
                Some(factor) => match voter.base_weight.checked_mul(factor) {
                    Some(_) => Some(calculate_weight(voter)),
                    None => None,
                },
                None => None,
            }
        },
        None => Some(calculate_weight(voter)),
    }
}

/// The bonus that enters the factor is never greater than one half, however
/// large the reputation score.
pub proof fn lemma_bonus_capped(reputation: Amount)
    ensures
        !reputation.spec_min(bonus_cap()).exceeds(bonus_cap()),
        reputation.exceeds(bonus_cap()) ==> bonus_factor(reputation) == decimal_sum(
            unit(),
            bonus_cap(),
        ),
        !reputation.exceeds(bonus_cap()) ==> bonus_factor(reputation) == decimal_sum(
            unit(),
            reputation,
        ),
{
}

/// Two calculations for one voter give the same weight.
pub proof fn lemma_calculate_weight_repeatable(voter: Voter, first: Amount, second: Amount)
    requires
        call_ensures(calculate_weight, (&voter,), first),
        call_ensures(calculate_weight, (&voter,), second),
    ensures
        first == second,
{
}

} // verus!
