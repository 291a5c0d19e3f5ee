//! Policies that pick the escalation function of a proposal's threshold.

use vstd::prelude::*;

use crate::fixed::{fx_add, fx_min, fx_mul, fx_ratio, Fixed, ONE};
use crate::threshold::{lemma_threshold_starts_at_base, EscalationType, ThresholdEscalator};
use crate::time::Timestamp;

verus! {

/// Raw count of the rise per second under [`ProgressionMode::Conservative`],
/// 0.002.
pub const CONSERVATIVE_RATE: i64 = 2_000_000;

/// Raw count of the growth constant under [`ProgressionMode::Aggressive`],
/// 0.05.
pub const AGGRESSIVE_GROWTH: i64 = 50_000_000;

/// Raw count of the growth constant under [`ProgressionMode::Adaptive`]
/// where no recent outcome failed, 0.03.
pub const ADAPTIVE_GROWTH: i64 = 30_000_000;

/// Raw count of what a full penalty adds to the adaptive growth constant,
/// 0.05.
pub const ADAPTIVE_PENALTY_GROWTH: i64 = 50_000_000;

/// The policy by which a strategy picks its escalation function.
#[derive(Debug, Clone, Copy, PartialEq, Eq, Structural)]
pub enum ProgressionMode {
    Conservative,
    Aggressive,
    /// The number of most recent outcomes that are looked at, at least one.
    Adaptive(u32),
}

/// Why a strategy cannot be built.
#[derive(Debug, Clone, Copy, PartialEq, Eq, Structural)]
pub enum StrategyError {
    /// An adaptive mode that looks at no outcome at all.
    ZeroWindow,
}

/// The settings from which the escalator of a proposal is made, and the
/// least number of votes that a decision takes.
#[derive(Debug)]
pub struct ThresholdStrategy {
    pub mode: ProgressionMode,
    pub base_threshold: Fixed,
    pub max_threshold: Fixed,
    pub start_time: Timestamp,
    pub min_votes: usize,
}

/// The number of failed outcomes in `outcomes`.
pub open spec fn failures_in(outcomes: Seq<bool>) -> nat
    decreases outcomes.len(),
{
    if outcomes.len() == 0 {
        0
    } else {
        failures_in(outcomes.drop_last()) + if outcomes.last() {
            0nat
        } else {
            1nat
        }
    }
}

/// How many of the latest outcomes are looked at: `window` of them, or all
/// where there are fewer.
pub open spec fn window_len(outcomes: Seq<bool>, window: nat) -> nat {
    if window < outcomes.len() {
        window
    } else {
        outcomes.len()
    }
}

/// The number of failed outcomes among the latest `window` ones. The latest
/// outcome stands last in `outcomes`.
pub open spec fn recent_failures(outcomes: Seq<bool>, window: nat) -> nat {
    failures_in(outcomes.skip(outcomes.len() - window_len(outcomes, window)))
}

/// `min(failures / window, 1)`.
pub open spec fn penalty(failures: int, window: int) -> int {
    fx_min(fx_ratio(failures, window), ONE as int)
}

/// `0.03 + penalty * 0.05`.
pub open spec fn adaptive_growth(failures: int, window: int) -> int {
    fx_add(ADAPTIVE_GROWTH as int, fx_mul(penalty(failures, window), ADAPTIVE_PENALTY_GROWTH as int))
}

impl ThresholdStrategy {
    /// An adaptive mode looks at one outcome at least.
    pub open spec fn is_valid(&self) -> bool {
        self.mode matches ProgressionMode::Adaptive(window) ==> window >= 1
    }

    /// The escalation function that the mode selects, given the outcomes of
    /// earlier proposals.
    pub open spec fn escalation_for(&self, outcomes: Seq<bool>) -> EscalationType {
        match self.mode {
            ProgressionMode::Conservative => EscalationType::Linear(
                Fixed { raw: CONSERVATIVE_RATE },
            ),
            ProgressionMode::Aggressive => EscalationType::Exponential(
                Fixed { raw: AGGRESSIVE_GROWTH },
            ),
            ProgressionMode::Adaptive(window) => EscalationType::Exponential(
                Fixed {
                    raw: adaptive_growth(
                        recent_failures(outcomes, window as nat) as int,
                        window as int,
                    ) as i64,
                },
            ),
        }
    }

    /// A strategy with the given settings. An adaptive mode with a window of
    /// zero is refused, and nothing else is.
    pub fn new(
        mode: ProgressionMode,
        base_threshold: Fixed,
        max_threshold: Fixed,
        start_time: Timestamp,
        min_votes: usize,
    ) -> (r: Result<ThresholdStrategy, StrategyError>)
        ensures
            match r {
                Ok(strategy) => {
                    &&& strategy.is_valid()
                    &&& strategy.mode == mode
                    &&& strategy.base_threshold == base_threshold
                    &&& strategy.max_threshold == max_threshold
                    &&& strategy.start_time == start_time
                    &&& strategy.min_votes == min_votes
                },
                Err(e) => e == StrategyError::ZeroWindow && mode == ProgressionMode::Adaptive(0),
            },
    {
        match mode {
            ProgressionMode::Adaptive(window) if window == 0 => Err(StrategyError::ZeroWindow),
            _ => Ok(ThresholdStrategy { mode, base_threshold, max_threshold, start_time, min_votes }),
        }
    }

    /// The escalator that this strategy stands for. `proposal_index` has no
    /// effect on it.
    pub fn to_escalator(&self, proposal_index: usize, recent_outcomes: &[bool]) -> (r:
        ThresholdEscalator)
        requires
            self.is_valid(),
        ensures
            r.base_threshold == self.base_threshold,
            r.max_threshold == self.max_threshold,
            r.start_time == self.start_time,
            r.escalation == self.escalation_for(recent_outcomes@),
    {
        let escalation = match self.mode {
            ProgressionMode::Conservative => EscalationType::Linear(
                Fixed::from_raw(CONSERVATIVE_RATE),
            ),
            ProgressionMode::Aggressive => EscalationType::Exponential(
                Fixed::from_raw(AGGRESSIVE_GROWTH),
            ),
            ProgressionMode::Adaptive(window) => {
                let failures = count_recent_failures(recent_outcomes, window);
                let share = Fixed::from_ratio(failures as u64, window as u64).min(Fixed::one());
                EscalationType::Exponential(
                    Fixed::from_raw(ADAPTIVE_GROWTH).saturating_add(
                        share.saturating_mul(Fixed::from_raw(ADAPTIVE_PENALTY_GROWTH)),
                    ),
                )
            },
        };
        ThresholdEscalator {
            base_threshold: self.base_threshold,
            max_threshold: self.max_threshold,
            start_time: self.start_time,
            escalation,
        }
    }

    /// Whether `vote_count` votes are enough for a decision.
    pub fn meets_min_votes(&self, vote_count: usize) -> (r: bool)
        ensures
            r == (vote_count >= self.min_votes),
    {
        vote_count >= self.min_votes
    }
}

/// The number of failed outcomes among the latest `window` ones.
pub fn count_recent_failures(recent_outcomes: &[bool], window: u32) -> (failures: usize)
    ensures
        failures == recent_failures(recent_outcomes@, window as nat),
        failures <= window_len(recent_outcomes@, window as nat),
{
    let len = recent_outcomes.len();
    let taken: usize = if (window as usize) < len {
        window as usize
    } else {
        len
    };
    let first: usize = len - taken;
    let mut failures: usize = 0;
    let mut i: usize = first;
    while i < len
        invariant
            first <= i <= len,
            len == recent_outcomes@.len(),
            failures == failures_in(recent_outcomes@.subrange(first as int, i as int)),
            failures <= i - first,
        decreases len - i,
    {
        assert(recent_outcomes@.subrange(first as int, i + 1).drop_last()
            =~= recent_outcomes@.subrange(first as int, i as int));
        if !recent_outcomes[i] {
            failures = failures + 1;
        }
        i = i + 1;
    }
    assert(recent_outcomes@.subrange(first as int, len as int) =~= recent_outcomes@.skip(
        first as int,
    ));
    failures
}

/// No more outcomes fail than there are.
pub proof fn lemma_failures_bounded(outcomes: Seq<bool>)
    ensures
        failures_in(outcomes) <= outcomes.len(),
    decreases outcomes.len(),
{
    if outcomes.len() > 0 {
        lemma_failures_bounded(outcomes.drop_last());
    }
}

/// No more outcomes count as recent failures than the window holds, so the
/// penalty is the failed share of the window and never more than one.
pub proof fn lemma_recent_failures_bounded(outcomes: Seq<bool>, window: nat)
    ensures
        recent_failures(outcomes, window) <= window_len(outcomes, window) <= window,
{
    lemma_failures_bounded(outcomes.skip(outcomes.len() - window_len(outcomes, window)));
}

/// The growth constant that an adaptive strategy selects lies between `0.03`
/// and `0.08`, whatever the outcomes.
pub proof fn lemma_adaptive_growth_range(strategy: ThresholdStrategy, outcomes: Seq<bool>)
    requires
        strategy.is_valid(),
        strategy.mode is Adaptive,
    ensures
        strategy.escalation_for(outcomes) matches EscalationType::Exponential(k)
            && ADAPTIVE_GROWTH <= k@ <= ADAPTIVE_GROWTH + ADAPTIVE_PENALTY_GROWTH,
{
    let window = strategy.mode->Adaptive_0;
    lemma_recent_failures_bounded(outcomes, window as nat);
    lemma_adaptive_growth_exact(recent_failures(outcomes, window as nat) as int, window as int);
}

/// With no more failures than the window holds, the adaptive growth constant
/// is `0.03` plus the failed share of `0.05`, and lies between `0.03` and
/// `0.08`.
pub proof fn lemma_adaptive_growth_exact(failures: int, window: int)
    requires
        0 <= failures <= window,
        1 <= window <= u32::MAX,
    ensures
        adaptive_growth(failures, window) == ADAPTIVE_GROWTH + ((failures * ONE) / window
            * ADAPTIVE_PENALTY_GROWTH) / (ONE as int),
        ADAPTIVE_GROWTH <= adaptive_growth(failures, window) <= ADAPTIVE_GROWTH
            + ADAPTIVE_PENALTY_GROWTH,
{
    let share = (failures * ONE) / window;
    assert(0 <= failures * ONE <= window * ONE) by (nonlinear_arith)
        requires
            0 <= failures <= window,
    ;
    assert(0 <= share <= ONE) by (nonlinear_arith)
        requires
            share == (failures * ONE) / window,
            0 <= failures * ONE <= window * ONE,
            window >= 1,
    ;
    assert(0 <= share * ADAPTIVE_PENALTY_GROWTH <= ONE * ADAPTIVE_PENALTY_GROWTH)
        by (nonlinear_arith)
        requires
            0 <= share <= ONE,
    ;
}

/// Whatever the mode and the outcomes, the escalator of a valid strategy
/// whose base is not above its cap gives exactly the base threshold at the
/// start itself.
pub proof fn lemma_strategy_starts_at_base(strategy: ThresholdStrategy, outcomes: Seq<bool>)
    requires
        strategy.is_valid(),
        strategy.base_threshold@ <= strategy.max_threshold@,
    ensures
        (ThresholdEscalator {
            base_threshold: strategy.base_threshold,
            max_threshold: strategy.max_threshold,
            start_time: strategy.start_time,
            escalation: strategy.escalation_for(outcomes),
        }).threshold_after(0) == strategy.base_threshold@,
{
    lemma_threshold_starts_at_base(
        ThresholdEscalator {
            base_threshold: strategy.base_threshold,
            max_threshold: strategy.max_threshold,
            start_time: strategy.start_time,
            escalation: strategy.escalation_for(outcomes),
        },
    );
}

/// Two calls on one strategy with the same outcomes give the same escalator,
/// whatever the proposal indices.
pub proof fn lemma_to_escalator_repeatable(
    strategy: ThresholdStrategy,
    first_index: usize,
    second_index: usize,
    outcomes: &[bool],
    first: ThresholdEscalator,
    second: ThresholdEscalator,
)
    requires
        call_ensures(ThresholdStrategy::to_escalator, (&strategy, first_index, outcomes), first),
        call_ensures(ThresholdStrategy::to_escalator, (&strategy, second_index, outcomes), second),
    ensures
        first == second,
{
}

/// Two checks of one vote count against one strategy agree.
pub proof fn lemma_meets_min_votes_repeatable(
    strategy: ThresholdStrategy,
    vote_count: usize,
    first: bool,
    second: bool,
)
    requires
        call_ensures(ThresholdStrategy::meets_min_votes, (&strategy, vote_count), first),
        call_ensures(ThresholdStrategy::meets_min_votes, (&strategy, vote_count), second),
    ensures
        first == second,
        first <==> vote_count >= strategy.min_votes,
{
}

} // verus!
