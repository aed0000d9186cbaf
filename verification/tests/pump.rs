use std::cmp::Ordering;
use lib::pump::{decide_water_change, CooldownPolicy, WaterChangeDecision};
use lib::water::{WaterQualityAssessment, WaterQualityStatus};

// Builds an assessment with a given status; the reason does not matter for
// the decision.
fn assessment(status: WaterQualityStatus) -> WaterQualityAssessment {
    let reason = match status {
        WaterQualityStatus::Good => "All good.",
        WaterQualityStatus::Warning => "pH slightly low.",
        WaterQualityStatus::Critical => "Temperature critical.",
    };
    WaterQualityAssessment { status, reason: reason.to_string() }
}

fn one_hour() -> CooldownPolicy {
    CooldownPolicy::one_hour()
}

const NOW: u64 = 10_000;

#[test]
fn cooldown_always_elapsed_when_never_changed() {
    assert!(one_hour().is_elapsed(None, NOW));
}

#[test]
fn cooldown_not_elapsed_when_changed_recently() {
    let last = NOW - 1_800;
    assert!(!one_hour().is_elapsed(Some(last), NOW));
}

#[test]
fn cooldown_elapsed_when_enough_time_passed() {
    let last = NOW - 5_400;
    assert!(one_hour().is_elapsed(Some(last), NOW));
}

#[test]
fn cooldown_elapsed_exactly_at_boundary() {
    let last = NOW - 3_600;
    assert!(one_hour().is_elapsed(Some(last), NOW));
}

#[test]
fn good_quality_is_never_needed_regardless_of_cooldown() {
    let a = assessment(WaterQualityStatus::Good);
    assert_eq!(
        decide_water_change(&a, &one_hour(), None, NOW),
        WaterChangeDecision::NotNeeded
    );
    assert_eq!(
        decide_water_change(&a, &one_hour(), Some(NOW - 60), NOW),
        WaterChangeDecision::NotNeeded
    );
}

#[test]
fn warning_quality_not_needed_when_cooldown_not_elapsed() {
    let a = assessment(WaterQualityStatus::Warning);
    let last = NOW - 60;
    assert_eq!(
        decide_water_change(&a, &one_hour(), Some(last), NOW),
        WaterChangeDecision::NotNeeded
    );
}

#[test]
fn warning_quality_recommended_when_cooldown_elapsed() {
    let a = assessment(WaterQualityStatus::Warning);
    assert_eq!(
        decide_water_change(&a, &one_hour(), None, NOW),
        WaterChangeDecision::Recommended
    );
}

#[test]
fn critical_quality_recommended_when_cooldown_not_elapsed() {
    let a = assessment(WaterQualityStatus::Critical);
    let last = NOW - 60;
    assert_eq!(
        decide_water_change(&a, &one_hour(), Some(last), NOW),
        WaterChangeDecision::Recommended
    );
}

#[test]
fn critical_quality_required_when_cooldown_elapsed() {
    let a = assessment(WaterQualityStatus::Critical);
    assert_eq!(
        decide_water_change(&a, &one_hour(), None, NOW),
        WaterChangeDecision::Required
    );
}

#[test]
fn decision_variants_are_ordered_by_urgency() {
    assert!(WaterChangeDecision::Required > WaterChangeDecision::Recommended);
    assert!(WaterChangeDecision::Recommended > WaterChangeDecision::NotNeeded);
}

// --- further cases ---

#[test]
fn new_policy_keeps_its_gap() {
    assert_eq!(CooldownPolicy::new(120).min_gap_secs, 120);
    assert_eq!(one_hour().min_gap_secs, 3600);
}

#[test]
fn cooldown_one_second_short_of_boundary_is_not_elapsed() {
    assert!(!one_hour().is_elapsed(Some(NOW - 3_599), NOW));
}

#[test]
fn clock_earlier_than_last_change_counts_as_no_time() {
    // now before last: the time since saturates at zero
    assert!(!one_hour().is_elapsed(Some(NOW + 100), NOW));
    assert!(CooldownPolicy::new(0).is_elapsed(Some(NOW + 100), NOW));
}

#[test]
fn cooldown_stays_elapsed_later() {
    let last = NOW - 3_600;
    assert!(one_hour().is_elapsed(Some(last), NOW));
    assert!(one_hour().is_elapsed(Some(last), NOW + 1));
    assert!(one_hour().is_elapsed(Some(last), u64::MAX));
}

#[test]
fn zero_gap_always_allows_a_change() {
    let p = CooldownPolicy::new(0);
    let a = assessment(WaterQualityStatus::Critical);
    assert_eq!(decide_water_change(&a, &p, Some(NOW), NOW), WaterChangeDecision::Required);
}

#[test]
fn good_quality_with_recent_change_and_early_clock() {
    let a = assessment(WaterQualityStatus::Good);
    assert_eq!(
        decide_water_change(&a, &one_hour(), Some(NOW + 5), NOW),
        WaterChangeDecision::NotNeeded
    );
}

#[test]
fn decisions_compare_as_their_urgency() {
    assert_eq!(
        WaterChangeDecision::NotNeeded.partial_cmp(&WaterChangeDecision::Required),
        Some(Ordering::Less)
    );
    assert_eq!(
        WaterChangeDecision::Recommended.partial_cmp(&WaterChangeDecision::Recommended),
        Some(Ordering::Equal)
    );
    assert!(WaterChangeDecision::NotNeeded < WaterChangeDecision::Required);
    assert!(WaterChangeDecision::Required >= WaterChangeDecision::Required);
    assert_eq!(
        WaterChangeDecision::Required.max(WaterChangeDecision::NotNeeded),
        WaterChangeDecision::Required
    );
}
