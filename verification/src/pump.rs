use std::cmp::Ordering;
use vstd::prelude::*;
use vstd::std_specs::cmp::{PartialOrdIs, PartialOrdSpecImpl};

use crate::order::{compare_ranks, ordering_of};
use crate::water::{WaterQualityAssessment, WaterQualityStatus};

verus! {

/// What the system should do about the water at this moment, ordered from
/// least to most urgent: `NotNeeded < Recommended < Required`.
#[derive(Debug, Clone, Copy, PartialEq, Eq, Structural, Ord)]
pub enum WaterChangeDecision {
    /// Water quality is acceptable. No change needed.
    NotNeeded,
    /// Water quality is outside the preferred range; a change is
    /// recommended but not immediately critical.
    Recommended,
    /// Water quality is at a critical level; a change must happen now.
    Required,
}

impl WaterChangeDecision {
    /// How urgent the decision is: 0, 1 or 2.
    pub open spec fn urgency(self) -> u8 {
        match self {
            WaterChangeDecision::NotNeeded => 0,
            WaterChangeDecision::Recommended => 1,
            WaterChangeDecision::Required => 2,
        }
    }

    /// The urgency as a machine integer.
    pub fn urgency_rank(&self) -> (r: u8)
        ensures
            r == self.urgency(),
    {
        match self {
            WaterChangeDecision::NotNeeded => 0,
            WaterChangeDecision::Recommended => 1,
            WaterChangeDecision::Required => 2,
        }
    }
}

impl PartialOrd for WaterChangeDecision {
    fn partial_cmp(&self, other: &Self) -> (r: Option<Ordering>) {
        Some(compare_ranks(self.urgency_rank(), other.urgency_rank()))
    }
}

impl PartialOrdSpecImpl for WaterChangeDecision {
    open spec fn obeys_partial_cmp_spec() -> bool {
        true
    }

    open spec fn partial_cmp_spec(&self, other: &Self) -> Option<Ordering> {
        Some(ordering_of(self.urgency(), other.urgency()))
    }
}

/// Controls how often water changes are allowed: at least `min_gap_secs`
/// seconds must pass between two changes, so that the fish are not stressed
/// by temperature shocks and pH swings.
#[derive(Debug, Clone, Copy, PartialEq, Eq, Structural)]
pub struct CooldownPolicy {
    /// Minimum seconds that must pass between any two water changes.
    pub min_gap_secs: u64,
}

impl CooldownPolicy {
    /// Whether the cooldown has passed at `now_secs` when the last change
    /// ran at `last_change_secs` (`None`: never). The time since the last
    /// change saturates at zero when `now_secs` is before it.
    pub open spec fn elapsed(self, last_change_secs: Option<u64>, now_secs: u64) -> bool {
        match last_change_secs {
            None => true,
            Some(last) => {
                let since: int = if now_secs >= last { now_secs - last } else { 0 };
                since >= self.min_gap_secs
            },
        }
    }

    /// Creates a policy with the given minimum gap.
    pub fn new(min_gap_secs: u64) -> (res: Self)
        ensures
            res.min_gap_secs == min_gap_secs,
    {
        CooldownPolicy { min_gap_secs }
    }

    /// At most one water change per hour.
    pub fn one_hour() -> (res: Self)
        ensures
            res.min_gap_secs == 3600,
    {
        Self::new(3600)
    }

    /// Returns `true` if enough time has passed since the last change, and
    /// always when no change has been performed yet.
    pub fn is_elapsed(&self, last_change_secs: Option<u64>, now_secs: u64) -> (res: bool)
        ensures
            res == self.elapsed(last_change_secs, now_secs),
    {
        match last_change_secs {
            None => true,
            Some(last) => now_secs.saturating_sub(last) >= self.min_gap_secs,
        }
    }
}

/// The decision table:
///
/// | water status | cooldown elapsed | decision    |
/// |--------------|------------------|-------------|
/// | Good         | any              | NotNeeded   |
/// | Warning      | no               | NotNeeded   |
/// | Warning      | yes              | Recommended |
/// | Critical     | no               | Recommended |
/// | Critical     | yes              | Required    |
pub open spec fn decision_for(status: WaterQualityStatus, elapsed: bool) -> WaterChangeDecision {
    match status {
        WaterQualityStatus::Good => WaterChangeDecision::NotNeeded,
        WaterQualityStatus::Warning => if elapsed {
            WaterChangeDecision::Recommended
        } else {
            WaterChangeDecision::NotNeeded
        },
        WaterQualityStatus::Critical => if elapsed {
            WaterChangeDecision::Required
        } else {
            WaterChangeDecision::Recommended
        },
    }
}

/// Decides whether a water change should happen right now, from the current
/// assessment, the cooldown policy and the time of the last change.
/// Even when the water is critical, a change is only recommended while the
/// cooldown has not passed.
#[must_use]
pub fn decide_water_change(
    assessment: &WaterQualityAssessment,
    cooldown: &CooldownPolicy,
    last_change_secs: Option<u64>,
    now_secs: u64,
) -> (res: WaterChangeDecision)
    ensures
        res == decision_for(assessment.status, cooldown.elapsed(last_change_secs, now_secs)),
{
    let elapsed = cooldown.is_elapsed(last_change_secs, now_secs);
    match (assessment.status, elapsed) {
        (WaterQualityStatus::Good, _) => WaterChangeDecision::NotNeeded,
        (WaterQualityStatus::Warning, false) => WaterChangeDecision::NotNeeded,
        (WaterQualityStatus::Warning, true) => WaterChangeDecision::Recommended,
        (WaterQualityStatus::Critical, false) => WaterChangeDecision::Recommended,
        (WaterQualityStatus::Critical, true) => WaterChangeDecision::Required,
    }
}

/// A change that has never been performed never holds a change back: with
/// no last change the cooldown has passed at every time.
pub proof fn lemma_never_changed_is_elapsed(cooldown: CooldownPolicy, now_secs: u64)
    ensures
        cooldown.elapsed(None, now_secs),
{
}

/// Once the cooldown has passed it stays passed: a later time is elapsed too.
pub proof fn lemma_elapsed_stays_elapsed(cooldown: CooldownPolicy, last: u64, now_secs: u64, later_secs: u64)
    requires
        now_secs <= later_secs,
        cooldown.elapsed(Some(last), now_secs),
    ensures
        cooldown.elapsed(Some(last), later_secs),
{
}

/// The cooldown passes exactly when at least `min_gap_secs` seconds lie
/// between the last change and now; a clock that reads earlier than the
/// last change counts as no time passed, so only a zero gap lets it pass.
pub proof fn lemma_elapsed_boundary(cooldown: CooldownPolicy, last: u64, now_secs: u64)
    ensures
        now_secs >= last ==> (cooldown.elapsed(Some(last), now_secs) <==> now_secs - last >= cooldown.min_gap_secs),
        now_secs < last ==> (cooldown.elapsed(Some(last), now_secs) <==> cooldown.min_gap_secs == 0),
{
}

/// Good water never needs a change, whether or not the cooldown has passed.
pub proof fn lemma_good_water_needs_no_change(elapsed: bool)
    ensures
        decision_for(WaterQualityStatus::Good, elapsed) == WaterChangeDecision::NotNeeded,
{
}

/// A change is required only when the water is critical and the cooldown
/// has passed; critical water inside the cooldown is only recommended.
pub proof fn lemma_required_only_when_critical_and_elapsed(status: WaterQualityStatus, elapsed: bool)
    ensures
        decision_for(status, elapsed) == WaterChangeDecision::Required <==> (status == WaterQualityStatus::Critical
            && elapsed),
        status == WaterQualityStatus::Critical && !elapsed ==> decision_for(status, elapsed)
            == WaterChangeDecision::Recommended,
{
}

/// Worse water never leads to a less urgent decision.
pub proof fn lemma_decision_monotone_in_status(better: WaterQualityStatus, worse: WaterQualityStatus, elapsed: bool)
    requires
        better.severity() <= worse.severity(),
    ensures
        decision_for(better, elapsed).urgency() <= decision_for(worse, elapsed).urgency(),
{
}

/// A passed cooldown never leads to a less urgent decision than a running one.
pub proof fn lemma_decision_monotone_in_cooldown(status: WaterQualityStatus)
    ensures
        decision_for(status, false).urgency() <= decision_for(status, true).urgency(),
{
}

/// Decisions are totally ordered by urgency, `NotNeeded < Recommended <
/// Required`, and two decisions of equal urgency are the same decision.
pub proof fn lemma_decisions_ordered_by_urgency(a: WaterChangeDecision, b: WaterChangeDecision)
    ensures
        a.is_lt(&b) <==> a.urgency() < b.urgency(),
        a.is_gt(&b) <==> a.urgency() > b.urgency(),
        a.is_le(&b) && b.is_le(&a) <==> a == b,
        WaterChangeDecision::NotNeeded.urgency() < WaterChangeDecision::Recommended.urgency(),
        WaterChangeDecision::Recommended.urgency() < WaterChangeDecision::Required.urgency(),
{
}

} // verus!
