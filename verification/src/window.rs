//! The window of time in which a proposal accepts votes, and the grace
//! period that follows it.

use vstd::prelude::*;

use crate::time::{
    lemma_order_is_by_position, lemma_timestamp_at_wf, shifted, Duration, Timestamp,
};

verus! {

/// A window from `start_time` through `end_time`, followed by a grace period
/// of length `grace_period`.
#[derive(Debug)]
pub struct VotingWindow {
    pub start_time: Timestamp,
    pub end_time: Timestamp,
    pub grace_period: Duration,
}

/// Where an instant lies relative to a window.
#[derive(Debug, Clone, Copy, PartialEq, Eq, Structural)]
pub enum WindowPhase {
    /// Before the start.
    NotStarted,
    /// From the start through the end.
    Open,
    /// After the end, through the end of the grace period.
    Grace,
    /// After the end of the grace period.
    Expired,
}

impl VotingWindow {
    /// The parts of the window are in range.
    pub open spec fn wf(&self) -> bool {
        &&& self.start_time.wf()
        &&& self.end_time.wf()
        &&& self.grace_period.wf()
    }

    /// The instant at which the grace period ends, where it is in range.
    pub open spec fn grace_end(&self) -> Option<Timestamp> {
        shifted(self.end_time, self.grace_period)
    }

    /// `start_time <= now <= end_time`.
    pub open spec fn open_at(&self, now: Timestamp) -> bool {
        self.start_time.spec_le(now) && now.spec_le(self.end_time)
    }

    /// `end_time < now <= end_time + grace_period`.
    pub open spec fn in_grace_at(&self, now: Timestamp) -> bool {
        self.end_time.spec_lt(now) && now.spec_le(self.grace_end().unwrap())
    }

    /// `now > end_time + grace_period`.
    pub open spec fn expired_at(&self, now: Timestamp) -> bool {
        self.grace_end().unwrap().spec_lt(now)
    }

    /// The phase in which `now` lies.
    pub open spec fn phase_at(&self, now: Timestamp) -> WindowPhase {
        if now.spec_lt(self.start_time) {
            WindowPhase::NotStarted
        } else if now.spec_le(self.end_time) {
            WindowPhase::Open
        } else if now.spec_le(self.grace_end().unwrap()) {
            WindowPhase::Grace
        } else {
            WindowPhase::Expired
        }
    }

    /// The window that opens at `start_time`, closes `duration` later and is
    /// followed by `grace_period`. The end has to be in range.
    pub fn new(start_time: Timestamp, duration: Duration, grace_period: Duration) -> (r:
        VotingWindow)
        requires
            start_time.wf(),
            duration.wf(),
            shifted(start_time, duration) is Some,
        ensures
            r.start_time == start_time,
            Some(r.end_time) == shifted(start_time, duration),
            r.grace_period == grace_period,
            r.end_time.wf(),
    {
        VotingWindow {
            start_time,
            end_time: start_time.checked_add(duration).unwrap(),
            grace_period,
        }
    }

    /// The same window as [`VotingWindow::new`] gives, where both its end and
    /// the end of its grace period are in range, and `None` where one is
    /// not.
    pub fn try_new(start_time: Timestamp, duration: Duration, grace_period: Duration) -> (r:
        Option<VotingWindow>)
        requires
            start_time.wf(),
            duration.wf(),
            grace_period.wf(),
        ensures
            match r {
                Some(window) => {
                    &&& window.start_time == start_time
                    &&& Some(window.end_time) == shifted(start_time, duration)
                    &&& window.grace_period == grace_period
                    &&& window.wf()
                    &&& window.grace_end() is Some
                },
                None => {
                    ||| shifted(start_time, duration) is None
                    ||| shifted(shifted(start_time, duration).unwrap(), grace_period) is None
                },
            },
    {
        match start_time.checked_add(duration) {
            Some(end_time) => match end_time.checked_add(grace_period) {
                Some(_) => Some(VotingWindow { start_time, end_time, grace_period }),
                None => None,
            },
            None => None,
        }
    }

    /// Whether `now` lies in the window, both ends included.
    pub fn is_open(&self, now: Timestamp) -> (r: bool)
        ensures
            r == self.open_at(now),
    {
        self.start_time.le(&now) && now.le(&self.end_time)
    }

    /// Whether `now` lies after the end of the window and not after the end
    /// of the grace period, which has to be in range.
    pub fn is_in_grace_period(&self, now: Timestamp) -> (r: bool)
        requires
            self.end_time.wf(),
            self.grace_period.wf(),
            self.grace_end() is Some,
        ensures
            r == self.in_grace_at(now),
    {
        let grace_end = self.end_time.checked_add(self.grace_period).unwrap();
        self.end_time.lt(&now) && now.le(&grace_end)
    }

    /// Whether `now` lies after the end of the grace period, which has to be
    /// in range.
    pub fn is_expired(&self, now: Timestamp) -> (r: bool)
        requires
            self.end_time.wf(),
            self.grace_period.wf(),
            self.grace_end() is Some,
        ensures
            r == self.expired_at(now),
    {
        let grace_end = self.end_time.checked_add(self.grace_period).unwrap();
        grace_end.lt(&now)
    }

    /// The phase in which `now` lies, the time before the start included.
    pub fn phase(&self, now: Timestamp) -> (r: WindowPhase)
        requires
            self.end_time.wf(),
            self.grace_period.wf(),
            self.grace_end() is Some,
        ensures
            r == self.phase_at(now),
    {
        if now.lt(&self.start_time) {
            WindowPhase::NotStarted
        } else if now.le(&self.end_time) {
            WindowPhase::Open
        } else if self.is_in_grace_period(now) {
            WindowPhase::Grace
        } else {
            WindowPhase::Expired
        }
    }
}

/// From the start on, an instant lies in exactly one of the three phases
/// open, grace and expired, and it is the one that [`VotingWindow::phase_at`]
/// names. This rests on a grace period that is not negative.
pub proof fn lemma_phases_partition(window: VotingWindow, now: Timestamp)
    requires
        window.wf(),
        window.grace_end() is Some,
        window.grace_period.as_nanos() >= 0,
        now.wf(),
        window.start_time.spec_le(now),
    ensures
        window.open_at(now) <==> window.phase_at(now) == WindowPhase::Open,
        window.in_grace_at(now) <==> window.phase_at(now) == WindowPhase::Grace,
        window.expired_at(now) <==> window.phase_at(now) == WindowPhase::Expired,
        window.phase_at(now) != WindowPhase::NotStarted,
        !(window.open_at(now) && window.in_grace_at(now)),
        !(window.open_at(now) && window.expired_at(now)),
        !(window.in_grace_at(now) && window.expired_at(now)),
        window.open_at(now) || window.in_grace_at(now) || window.expired_at(now),
{
    let grace_end = window.grace_end().unwrap();
    lemma_timestamp_at_wf(window.end_time.as_nanos() + window.grace_period.as_nanos());
    lemma_order_is_by_position(window.end_time, grace_end);
    lemma_order_is_by_position(window.end_time, now);
    lemma_order_is_by_position(now, window.end_time);
    lemma_order_is_by_position(now, grace_end);
    lemma_order_is_by_position(grace_end, now);
    lemma_order_is_by_position(window.start_time, now);
    lemma_order_is_by_position(now, window.start_time);
}

/// Two classifications of one instant by one window agree, predicate by
/// predicate.
pub proof fn lemma_phase_repeatable(
    window: VotingWindow,
    now: Timestamp,
    open: (bool, bool),
    grace: (bool, bool),
    expired: (bool, bool),
)
    requires
        call_ensures(VotingWindow::is_open, (&window, now), open.0),
        call_ensures(VotingWindow::is_open, (&window, now), open.1),
        call_ensures(VotingWindow::is_in_grace_period, (&window, now), grace.0),
        call_ensures(VotingWindow::is_in_grace_period, (&window, now), grace.1),
        call_ensures(VotingWindow::is_expired, (&window, now), expired.0),
        call_ensures(VotingWindow::is_expired, (&window, now), expired.1),
    ensures
        open.0 == open.1,
        grace.0 == grace.1,
        expired.0 == expired.1,
{
}

/// Before the start an instant is in the phase not-started, and the window
/// is not open.
pub proof fn lemma_not_started_before_start(window: VotingWindow, now: Timestamp)
    requires
        now.spec_lt(window.start_time),
    ensures
        window.phase_at(now) == WindowPhase::NotStarted,
        !window.open_at(now),
{
}

} // verus!
