use std::cmp::Ordering;
use vstd::prelude::*;
use vstd::std_specs::cmp::{PartialOrdIs, PartialOrdSpecImpl};

use crate::order::{compare_ranks, ordering_of};

verus! {

/// Overall water quality, ordered from best to worst:
/// `Good < Warning < Critical`.
#[derive(Debug, Clone, Copy, PartialEq, Eq, Structural, Ord)]
pub enum WaterQualityStatus {
    /// All measured parameters are within acceptable ranges.
    Good,
    /// At least one parameter is outside the preferred range
    /// but not yet at a dangerous level.
    Warning,
    /// At least one parameter is at a dangerous level.
    Critical,
}

impl WaterQualityStatus {
    /// How bad the status is: 0 for `Good`, 1 for `Warning`, 2 for `Critical`.
    pub open spec fn severity(self) -> u8 {
        match self {
            WaterQualityStatus::Good => 0,
            WaterQualityStatus::Warning => 1,
            WaterQualityStatus::Critical => 2,
        }
    }

    /// The severity as a machine integer.
    pub fn severity_rank(&self) -> (r: u8)
        ensures
            r == self.severity(),
    {
        match self {
            WaterQualityStatus::Good => 0,
            WaterQualityStatus::Warning => 1,
            WaterQualityStatus::Critical => 2,
        }
    }
}

impl PartialOrd for WaterQualityStatus {
    fn partial_cmp(&self, other: &Self) -> (r: Option<Ordering>) {
        Some(compare_ranks(self.severity_rank(), other.severity_rank()))
    }
}

impl PartialOrdSpecImpl for WaterQualityStatus {
    open spec fn obeys_partial_cmp_spec() -> bool {
        true
    }

    open spec fn partial_cmp_spec(&self, other: &Self) -> Option<Ordering> {
        Some(ordering_of(self.severity(), other.severity()))
    }
}

/// The reason given when no parameter is outside its preferred range.
pub open spec fn good_reason() -> Seq<char> {
    "All parameters within acceptable range."@
}

/// The result of assessing water quality: the worst status found and a
/// human-readable description of what triggered it.
#[derive(Debug, Clone, PartialEq)]
pub struct WaterQualityAssessment {
    /// The worst status found across all parameters.
    pub status: WaterQualityStatus,
    /// Human-readable description of what was found.
    pub reason: String,
}

impl WaterQualityAssessment {
    /// The assessment of water where nothing is out of range.
    pub fn good() -> (res: Self)
        ensures
            res.status == WaterQualityStatus::Good,
            res.reason@ == good_reason(),
    {
        let reason = "All parameters within acceptable range.".to_owned();
        proof {
            reveal_strlit("All parameters within acceptable range.");
        }
        WaterQualityAssessment { status: WaterQualityStatus::Good, reason }
    }

    /// A warning assessment with the given reason.
    pub fn warning(reason: String) -> (res: Self)
        ensures
            res.status == WaterQualityStatus::Warning,
            res.reason@ == reason@,
    {
        WaterQualityAssessment { status: WaterQualityStatus::Warning, reason }
    }

    /// A critical assessment with the given reason.
    pub fn critical(reason: String) -> (res: Self)
        ensures
            res.status == WaterQualityStatus::Critical,
            res.reason@ == reason@,
    {
        WaterQualityAssessment { status: WaterQualityStatus::Critical, reason }
    }
}

/// The status of one measured parameter: critical when the value lies
/// outside the critical band, otherwise a warning when it lies outside the
/// preferred band, otherwise good. The critical band is checked first.
pub open spec fn parameter_status_spec(outside_critical: bool, outside_preferred: bool) -> WaterQualityStatus {
    if outside_critical {
        WaterQualityStatus::Critical
    } else if outside_preferred {
        WaterQualityStatus::Warning
    } else {
        WaterQualityStatus::Good
    }
}

/// Classifies one parameter from where its value lies: `outside_critical`
/// when it is below the critical minimum or above the critical maximum,
/// `outside_preferred` when it is below the preferred minimum or above the
/// preferred maximum.
pub fn parameter_status(outside_critical: bool, outside_preferred: bool) -> (res: WaterQualityStatus)
    ensures
        res == parameter_status_spec(outside_critical, outside_preferred),
{
    if outside_critical {
        WaterQualityStatus::Critical
    } else if outside_preferred {
        WaterQualityStatus::Warning
    } else {
        WaterQualityStatus::Good
    }
}

/// `(status, reason)` is what assessing `findings` yields: `status` is the
/// worst status among the findings (`Good` when there are none); when it is
/// `Good` the reason is `good_reason()`, otherwise it is the reason of the
/// first finding that has that status.
pub open spec fn is_worst_of(
    findings: Seq<WaterQualityAssessment>,
    status: WaterQualityStatus,
    reason: Seq<char>,
) -> bool {
    &&& forall|i: int| 0 <= i < findings.len() ==> #[trigger] findings[i].status.severity() <= status.severity()
    &&& status == WaterQualityStatus::Good ==> reason == good_reason()
    &&& status != WaterQualityStatus::Good ==> exists|k: int|
        0 <= k < findings.len() && #[trigger] findings[k].status == status && reason == findings[k].reason@
            && forall|j: int| 0 <= j < k ==> findings[j].status.severity() < status.severity()
}

/// Combines the findings of the individual parameters into one assessment:
/// the worst status wins, and among findings of that status the first one
/// gives the reason. With no finding, or only good ones, the water is good.
pub fn worst_finding(findings: &Vec<WaterQualityAssessment>) -> (res: WaterQualityAssessment)
    ensures
        is_worst_of(findings@, res.status, res.reason@),
{
    let mut worst = WaterQualityAssessment::good();
    let mut i: usize = 0;
    while i < findings.len()
        invariant
            0 <= i <= findings.len(),
            is_worst_of(findings@.take(i as int), worst.status, worst.reason@),
        decreases findings.len() - i,
    {
        let ghost prefix = findings@.take(i as int);
        let ghost before = worst.status;
        let ghost before_reason = worst.reason@;
        let candidate = &findings[i];
        if candidate.status > worst.status {
            worst = WaterQualityAssessment { status: candidate.status, reason: candidate.reason.clone() };
        }
        proof {
            let next = findings@.take(i + 1);
            assert(next =~= prefix.push(findings@[i as int]));
            if worst.status != before {
                assert(next[i as int].status == worst.status);
                assert forall|j: int| 0 <= j < i implies next[j].status.severity() < worst.status.severity() by {
                    assert(prefix[j].status.severity() <= before.severity());
                }
            } else if worst.status != WaterQualityStatus::Good {
                let k = choose|k: int|
                    0 <= k < prefix.len() && #[trigger] prefix[k].status == before && before_reason == prefix[k].reason@
                        && forall|j: int| 0 <= j < k ==> prefix[j].status.severity() < before.severity();
                assert(next[k].status == worst.status);
            }
        }
        i = i + 1;
    }
    proof {
        assert(findings@.take(findings.len() as int) =~= findings@);
    }
    worst
}

/// Statuses are totally ordered by severity, `Good < Warning < Critical`,
/// and two statuses of equal severity are the same status.
pub proof fn lemma_statuses_ordered_by_severity(a: WaterQualityStatus, b: WaterQualityStatus)
    ensures
        a.is_lt(&b) <==> a.severity() < b.severity(),
        a.is_gt(&b) <==> a.severity() > b.severity(),
        a.is_le(&b) && b.is_le(&a) <==> a == b,
        WaterQualityStatus::Good.severity() < WaterQualityStatus::Warning.severity(),
        WaterQualityStatus::Warning.severity() < WaterQualityStatus::Critical.severity(),
{
}

/// If any single parameter is critical, the whole assessment is critical.
pub proof fn lemma_any_critical_makes_critical(
    findings: Seq<WaterQualityAssessment>,
    status: WaterQualityStatus,
    reason: Seq<char>,
    i: int,
)
    requires
        is_worst_of(findings, status, reason),
        0 <= i < findings.len(),
        findings[i].status == WaterQualityStatus::Critical,
    ensures
        status == WaterQualityStatus::Critical,
{
    assert(findings[i].status.severity() <= status.severity());
}

/// Some finding in `findings` has status `status`.
pub open spec fn has_status(findings: Seq<WaterQualityAssessment>, status: WaterQualityStatus) -> bool {
    exists|i: int| 0 <= i < findings.len() && #[trigger] findings[i].status == status
}

/// The overall status depends only on which statuses the parameters have:
/// two lists of findings with the same statuses present, in any order and
/// any number, give the same overall status.
pub proof fn lemma_status_depends_only_on_statuses_present(
    f1: Seq<WaterQualityAssessment>,
    s1: WaterQualityStatus,
    r1: Seq<char>,
    f2: Seq<WaterQualityAssessment>,
    s2: WaterQualityStatus,
    r2: Seq<char>,
)
    requires
        is_worst_of(f1, s1, r1),
        is_worst_of(f2, s2, r2),
        forall|s: WaterQualityStatus| #[trigger] has_status(f1, s) == has_status(f2, s),
    ensures
        s1 == s2,
{
    if s1 != WaterQualityStatus::Good {
        assert(has_status(f1, s1));
        assert(has_status(f2, s1));
        let j = choose|j: int| 0 <= j < f2.len() && #[trigger] f2[j].status == s1;
        assert(f2[j].status.severity() <= s2.severity());
    }
    if s2 != WaterQualityStatus::Good {
        assert(has_status(f2, s2));
        assert(has_status(f1, s2));
        let i = choose|i: int| 0 <= i < f1.len() && #[trigger] f1[i].status == s2;
        assert(f1[i].status.severity() <= s1.severity());
    }
}

} // verus!
