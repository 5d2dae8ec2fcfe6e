//! The governor's stages on hand-picked states.

use bevy_metalfx::adaptive::{AdaptiveConfigError, AdaptiveReason, AdaptiveSampleValidity};
use bevy_metalfx::governor::{
    floor_rung, rejection_of, AdaptiveGovernor, CostVerdicts, GovernorObservation,
    GovernorTiming, Intake,
};

const MS: u64 = 1_000_000;

fn timing() -> GovernorTiming {
    GovernorTiming {
        settling_time: 250 * MS,
        over_budget_for: 500 * MS,
        headroom_for: 2000 * MS,
        max_sample_age: 250 * MS,
    }
}

fn usable(at_ms: u64, frame: u64) -> GovernorObservation {
    GovernorObservation {
        now: at_ms * MS,
        epoch: 0,
        frame_id: frame,
        sampled_at: at_ms * MS,
        validity: AdaptiveSampleValidity::ValidatedFrameCost,
        effect_ready: true,
        cost_present: true,
        measurement_finite: true,
        scale_matches: true,
    }
}

fn overloaded() -> CostVerdicts {
    CostVerdicts {
        trial_without_benefit: false,
        near_no_benefit_cost: false,
        over_budget: true,
        headroom: false,
        upper_fits: true,
        kept_trial_fits: false,
    }
}

#[test]
fn floor_is_the_first_allowed_rung() {
    assert_eq!(floor_rung(&vec![false, false, true, true]), Ok(2));
    assert_eq!(floor_rung(&vec![true]), Ok(0));
    assert_eq!(floor_rung(&vec![false, false]), Err(AdaptiveConfigError::NoAllowedScale));
    assert_eq!(floor_rung(&vec![]), Err(AdaptiveConfigError::NoAllowedScale));
}

#[test]
fn rejections_follow_their_order() {
    let mut o = usable(100, 1);
    assert_eq!(rejection_of(&o, 250 * MS), None);
    o.scale_matches = false;
    assert_eq!(rejection_of(&o, 250 * MS), Some(AdaptiveReason::ScaleMismatch));
    o.sampled_at = 0;
    o.now = 300 * MS;
    assert_eq!(rejection_of(&o, 250 * MS), Some(AdaptiveReason::StaleSample));
    o.measurement_finite = false;
    assert_eq!(rejection_of(&o, 250 * MS), Some(AdaptiveReason::InvalidSample));
    o.validity = AdaptiveSampleValidity::UnvalidatedScope;
    assert_eq!(rejection_of(&o, 250 * MS), Some(AdaptiveReason::UnvalidatedScope));
    o.cost_present = false;
    assert_eq!(rejection_of(&o, 250 * MS), Some(AdaptiveReason::Unavailable));
    o.effect_ready = false;
    assert_eq!(rejection_of(&o, 250 * MS), Some(AdaptiveReason::EffectPending));
}

#[test]
fn first_sample_starts_a_new_epoch_and_settles_later() {
    let mut g = AdaptiveGovernor::new(4, 0, 3);
    let first = g.intake(usable(1000, 1), timing());
    assert!(first.new_epoch);
    assert!(first.evidence_cleared);
    match first.intake {
        Intake::Measured(a) => {
            assert_eq!(a.elapsed, 0);
            assert!(!a.settled);
            assert!(a.fresh_start);
        }
        Intake::Decided(r) => panic!("unexpected {r:?}"),
    }
    let second = g.intake(usable(1100, 2), timing());
    assert!(!second.new_epoch);
    match second.intake {
        Intake::Measured(a) => {
            assert_eq!(a.elapsed, 100 * MS);
            assert!(!a.settled);
            assert!(!a.fresh_start);
        }
        Intake::Decided(r) => panic!("unexpected {r:?}"),
    }
    let third = g.intake(usable(1300, 3), timing());
    match third.intake {
        Intake::Measured(a) => {
            assert_eq!(a.elapsed, 200 * MS);
            assert!(a.settled);
        }
        Intake::Decided(r) => panic!("unexpected {r:?}"),
    }
}

#[test]
fn a_repeated_frame_is_out_of_order() {
    let mut g = AdaptiveGovernor::new(4, 0, 3);
    g.intake(usable(1000, 5), timing());
    let again = g.intake(usable(1010, 5), timing());
    assert_eq!(again.intake, Intake::Decided(AdaptiveReason::OutOfOrderSample));
    let earlier_time = g.intake(usable(900, 6), timing());
    assert_eq!(earlier_time.intake, Intake::Decided(AdaptiveReason::OutOfOrderSample));
    assert_eq!(g.index(), 3);
}

#[test]
fn a_pause_restarts_smoothing_with_zero_elapsed_time() {
    let mut g = AdaptiveGovernor::new(4, 0, 3);
    g.intake(usable(1000, 1), timing());
    match g.intake(usable(2000, 2), timing()).intake {
        Intake::Measured(a) => {
            assert_eq!(a.elapsed, 0);
            assert!(a.fresh_start);
            assert!(!a.settled);
        }
        Intake::Decided(r) => panic!("unexpected {r:?}"),
    }
}

#[test]
fn sustained_overload_lowers_one_rung_and_starts_a_trial() {
    let mut g = AdaptiveGovernor::new(4, 0, 3);
    let mut lowered_at = None;
    for step in 0..20u64 {
        let out = g.intake(usable(1000 + step * 100, step + 1), timing());
        if let Intake::Measured(a) = out.intake {
            let d = g.decide(a, overloaded(), timing());
            if d.changed {
                assert_eq!(d.reason, AdaptiveReason::OverBudget);
                assert!(d.trial_started);
                assert!(d.evidence_cleared);
                lowered_at = Some(step);
                break;
            }
        }
    }
    // Settled at 1300 ms, whose 100 ms already count as overload; the
    // overload reaches 500 ms at 1700 ms.
    assert_eq!(lowered_at, Some(7));
    assert_eq!(g.index(), 2);
    assert_eq!(g.trial_from(), Some(3));
}

#[test]
fn a_trial_without_benefit_is_reversed() {
    let mut g = AdaptiveGovernor::new(4, 0, 3);
    let mut step = 0u64;
    while g.trial_from().is_none() {
        step += 1;
        if let Intake::Measured(a) = g.intake(usable(1000 + step * 100, step), timing()).intake {
            g.decide(a, overloaded(), timing());
        }
    }
    let no_benefit = CostVerdicts { trial_without_benefit: true, ..overloaded() };
    let mut reversed = None;
    for _ in 0..20 {
        step += 1;
        if let Intake::Measured(a) = g.intake(usable(1000 + step * 100, step), timing()).intake {
            let d = g.decide(a, no_benefit, timing());
            if d.changed {
                reversed = Some(d);
                break;
            }
        }
    }
    let d = reversed.unwrap();
    assert_eq!(d.reason, AdaptiveReason::NoMeasuredBenefit);
    assert!(d.trial_reverted);
    assert_eq!(g.index(), 3);
    assert_eq!(g.trial_from(), None);
    assert!(g.holds_no_benefit());
}

#[test]
fn at_the_floor_overload_is_infeasible() {
    let mut g = AdaptiveGovernor::new(4, 2, 2);
    let mut last = None;
    for step in 1..30u64 {
        if let Intake::Measured(a) = g.intake(usable(1000 + step * 100, step), timing()).intake {
            last = Some(g.decide(a, overloaded(), timing()));
        }
    }
    assert_eq!(last.unwrap().reason, AdaptiveReason::BudgetInfeasible);
    assert_eq!(g.index(), 2);
}

#[test]
fn reconfiguring_raises_the_rung_to_a_higher_floor() {
    let mut g = AdaptiveGovernor::new(4, 0, 1);
    g.reconfigure(3);
    assert_eq!(g.index(), 3);
    assert_eq!(g.floor(), 3);
    g.reconfigure(0);
    assert_eq!(g.index(), 3);
    assert_eq!(g.floor(), 0);
}

#[test]
fn admission_depends_on_time_not_frame_numbers() {
    let mut a = AdaptiveGovernor::new(4, 0, 3);
    let mut b = AdaptiveGovernor::new(4, 0, 3);
    a.intake(usable(1000, 1), timing());
    b.intake(usable(1000, 500), timing());
    let first = a.intake(usable(1200, 2), timing());
    let second = b.intake(usable(1200, 90_000), timing());
    assert_eq!(first, second);
}
