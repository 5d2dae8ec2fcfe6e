//! The decision procedure of the adaptive-resolution controller.
//!
//! Each delivery passes two stages. The intake classifies it: out of order,
//! rejected (the effect is pending, the cost is missing, unvalidated, invalid,
//! stale, or measured at another scale), a duplicate, or a usable sample with
//! the time elapsed since the previous one. Between the stages the caller
//! folds the cost into its smoothed estimate and compares it with the budget;
//! the decision then moves along the quality ladder by measured time, never
//! by a count of frames. Rejected and missing samples can never lower
//! quality. A downshift that fails to reduce the measured cost is reversed.

use vstd::prelude::*;
use crate::adaptive::{
    admitted, cleared, evidence_well_formed, saturating_sum, AdaptiveConfigError, AdaptiveReason, AdaptiveSampleValidity,
    Admission, EvidenceClock, EvidenceView, GateEntry, QualityLadder,
};

verus! {

/// The integer timing policy, in nanoseconds.
#[derive(Clone, Copy, Debug, PartialEq, Eq, Structural)]
pub struct GovernorTiming {
    /// Time after evidence begins before any decision.
    pub settling_time: u64,
    /// Sustained overload that lowers the scale; also the length of a
    /// downward trial.
    pub over_budget_for: u64,
    /// Sustained headroom that raises the scale.
    pub headroom_for: u64,
    /// Oldest acceptable sample, and the longest gap that is not a pause.
    pub max_sample_age: u64,
}

/// One delivery, reduced to what the decisions read. Times are nanoseconds.
#[derive(Clone, Copy, Debug, PartialEq, Eq, Structural)]
pub struct GovernorObservation {
    pub now: u64,
    pub epoch: u64,
    pub frame_id: u64,
    pub sampled_at: u64,
    pub validity: AdaptiveSampleValidity,
    pub effect_ready: bool,
    /// A GPU cost came with the delivery.
    pub cost_present: bool,
    /// The cost is finite and positive and the sampled scale is finite.
    pub measurement_finite: bool,
    /// The sampled scale is the current rung's scale.
    pub scale_matches: bool,
}

/// Why a delivery is refused before its identity is even examined, if it is.
pub open spec fn rejection(o: GovernorObservation, max_sample_age: u64) -> Option<AdaptiveReason> {
    if !o.effect_ready {
        Some(AdaptiveReason::EffectPending)
    } else if o.validity == AdaptiveSampleValidity::Unavailable || !o.cost_present {
        Some(AdaptiveReason::Unavailable)
    } else if o.validity == AdaptiveSampleValidity::UnvalidatedScope {
        Some(AdaptiveReason::UnvalidatedScope)
    } else if o.sampled_at > o.now || !o.measurement_finite {
        Some(AdaptiveReason::InvalidSample)
    } else if o.now - o.sampled_at > max_sample_age {
        Some(AdaptiveReason::StaleSample)
    } else if !o.scale_matches {
        Some(AdaptiveReason::ScaleMismatch)
    } else {
        None
    }
}

/// The refusal reason of a delivery, as [`rejection`] states it.
pub fn rejection_of(o: &GovernorObservation, max_sample_age: u64) -> (r: Option<AdaptiveReason>)
    ensures
        r == rejection(*o, max_sample_age),
        r is None <==> (o.effect_ready && o.validity == AdaptiveSampleValidity::ValidatedFrameCost
            && o.cost_present && o.measurement_finite && o.sampled_at <= o.now && o.now
            - o.sampled_at <= max_sample_age && o.scale_matches),
        !o.effect_ready ==> r == Some(AdaptiveReason::EffectPending),
        o.effect_ready && !o.cost_present ==> r == Some(AdaptiveReason::Unavailable),
{
    if !o.effect_ready {
        Some(AdaptiveReason::EffectPending)
    } else if o.validity == AdaptiveSampleValidity::Unavailable || !o.cost_present {
        Some(AdaptiveReason::Unavailable)
    } else if o.validity == AdaptiveSampleValidity::UnvalidatedScope {
        Some(AdaptiveReason::UnvalidatedScope)
    } else if o.sampled_at > o.now || !o.measurement_finite {
        Some(AdaptiveReason::InvalidSample)
    } else if o.now - o.sampled_at > max_sample_age {
        Some(AdaptiveReason::StaleSample)
    } else if !o.scale_matches {
        Some(AdaptiveReason::ScaleMismatch)
    } else {
        None
    }
}

/// The quality floor of a ladder: the first rung whose scale is at or above
/// the minimum scale (`allowed[i]` says whether rung `i` is), or
/// `NoAllowedScale` when there is none.
pub fn floor_rung(allowed: &Vec<bool>) -> (r: Result<usize, AdaptiveConfigError>)
    ensures
        match r {
            Ok(i) => i < allowed.len() && allowed@[i as int] && forall|j: int|
                0 <= j < i ==> !#[trigger] allowed@[j],
            Err(e) => e == AdaptiveConfigError::NoAllowedScale && forall|j: int|
                0 <= j < allowed.len() ==> !#[trigger] allowed@[j],
        },
{
    let mut i: usize = 0;
    while i < allowed.len()
        invariant
            i <= allowed.len(),
            forall|j: int| 0 <= j < i ==> !#[trigger] allowed@[j],
        decreases allowed.len() - i,
    {
        if allowed[i] {
            return Ok(i);
        }
        i = i + 1;
    }
    Err(AdaptiveConfigError::NoAllowedScale)
}

/// What the intake made of a delivery.
#[derive(Clone, Copy, Debug, PartialEq, Eq, Structural)]
pub enum Intake {
    /// The delivery ends here with this reason.
    Decided(AdaptiveReason),
    /// A usable sample: fold its cost in, then call the decision.
    Measured(Admission),
}

/// The intake's result and what the caller must discard alongside.
#[derive(Clone, Copy, Debug, PartialEq, Eq, Structural)]
pub struct IntakeOutcome {
    pub intake: Intake,
    /// A new measurement epoch began: the caller forgets its smoothed cost,
    /// the trial's reference cost, the no-benefit reference and every rung
    /// comparison.
    pub new_epoch: bool,
    /// The evidence was cleared: the caller forgets its smoothed cost.
    pub evidence_cleared: bool,
}

/// Comparisons of the smoothed cost that the caller makes for a usable
/// sample, before the decision.
#[derive(Clone, Copy, Debug, PartialEq, Eq, Structural)]
pub struct CostVerdicts {
    /// With a downward trial running: the measured benefit of the lower rung
    /// is below the required fraction.
    pub trial_without_benefit: bool,
    /// With a no-benefit reference held: the cost is within a quarter of it.
    pub near_no_benefit_cost: bool,
    /// The cost exceeds the budget times the overload ratio.
    pub over_budget: bool,
    /// The cost is below the budget times the headroom ratio.
    pub headroom: bool,
    /// The estimated cost of the next higher rung fits the budget (true
    /// when no comparison for it is held).
    pub upper_fits: bool,
    /// With a downward trial running: the trial's reference cost fits the
    /// budget. Once the trial is kept, this is the estimate for the rung
    /// above.
    pub kept_trial_fits: bool,
}

/// A decision on a usable sample, and what the caller must record.
#[derive(Clone, Copy, Debug, PartialEq, Eq, Structural)]
pub struct GovernorDecision {
    pub reason: AdaptiveReason,
    /// The rung changed.
    pub changed: bool,
    /// The evidence was cleared: the caller forgets its smoothed cost.
    pub evidence_cleared: bool,
    /// The running trial brought no benefit and was reversed: the trial's
    /// reference cost becomes the no-benefit reference.
    pub trial_reverted: bool,
    /// The running trial succeeded at this (lower) rung: the caller records
    /// the trial's reference cost as the upper and the smoothed cost as the
    /// lower cost of this rung's comparison.
    pub trial_kept_at: Option<usize>,
    /// The no-benefit reference was dropped.
    pub no_benefit_cleared: bool,
    /// A downward trial began: the smoothed cost is its reference.
    pub trial_started: bool,
}

/// The controller's plain state.
#[derive(Clone, Copy)]
pub struct GovernorView {
    pub index: nat,
    pub floor: nat,
    pub len: nat,
    pub evidence: EvidenceView,
    /// The rung a running downward trial started from.
    pub trial_from: Option<usize>,
    /// A no-benefit reference cost is held.
    pub no_benefit: bool,
}

/// The state is consistent: the rung lies in `[floor, len)`, the evidence is
/// consistent, and a running trial started one rung above the current one.
pub open spec fn governor_well_formed(g: GovernorView) -> bool {
    &&& g.floor <= g.index < g.len
    &&& evidence_well_formed(g.evidence)
    &&& (g.trial_from matches Some(p) ==> p == g.index + 1 && p < g.len)
}

/// A decision that only reports `reason`.
pub open spec fn plain_decision(reason: AdaptiveReason) -> GovernorDecision {
    GovernorDecision {
        reason,
        changed: false,
        evidence_cleared: false,
        trial_reverted: false,
        trial_kept_at: None,
        no_benefit_cleared: false,
        trial_started: false,
    }
}

/// The decision after any running trial has been settled: the no-benefit
/// hold, then overload, then headroom.
pub open spec fn after_trial(
    g: GovernorView,
    dt: u64,
    v: CostVerdicts,
    t: GovernorTiming,
    kept_at: Option<usize>,
    upper_fits: bool,
) -> (GovernorView, GovernorDecision) {
    let base = GovernorDecision { trial_kept_at: kept_at, ..plain_decision(AdaptiveReason::WithinBudget) };
    if g.no_benefit && v.near_no_benefit_cost {
        (g, GovernorDecision { reason: AdaptiveReason::NoMeasuredBenefit, ..base })
    } else {
        let g1 = GovernorView { no_benefit: false, ..g };
        let base1 = GovernorDecision { no_benefit_cleared: g.no_benefit, ..base };
        if v.over_budget {
            let ev = EvidenceView {
                headroom_for: 0,
                overload_for: saturating_sum(g1.evidence.overload_for, dt),
                ..g1.evidence
            };
            if ev.overload_for < t.over_budget_for {
                (
                    GovernorView { evidence: ev, ..g1 },
                    GovernorDecision { reason: AdaptiveReason::OverBudget, ..base1 },
                )
            } else if g1.index == g1.floor {
                (
                    GovernorView { evidence: ev, ..g1 },
                    GovernorDecision { reason: AdaptiveReason::BudgetInfeasible, ..base1 },
                )
            } else {
                (
                    GovernorView {
                        index: (g1.index - 1) as nat,
                        trial_from: Some(g1.index as usize),
                        evidence: cleared(ev),
                        ..g1
                    },
                    GovernorDecision {
                        reason: AdaptiveReason::OverBudget,
                        changed: true,
                        evidence_cleared: true,
                        trial_started: true,
                        ..base1
                    },
                )
            }
        } else {
            let ev = EvidenceView { overload_for: 0, ..g1.evidence };
            if v.headroom && g1.index + 1 < g1.len && upper_fits {
                let ev2 = EvidenceView {
                    headroom_for: saturating_sum(ev.headroom_for, dt),
                    ..ev
                };
                if ev2.headroom_for >= t.headroom_for {
                    (
                        GovernorView { index: g1.index + 1, evidence: cleared(ev2), ..g1 },
                        GovernorDecision {
                            reason: AdaptiveReason::Headroom,
                            changed: true,
                            evidence_cleared: true,
                            ..base1
                        },
                    )
                } else {
                    (GovernorView { evidence: ev2, ..g1 }, base1)
                }
            } else {
                (GovernorView { evidence: EvidenceView { headroom_for: 0, ..ev }, ..g1 }, base1)
            }
        }
    }
}

/// The decision on a usable sample admitted as `a`, given the caller's
/// comparisons `v`.
pub open spec fn decision(g: GovernorView, a: Admission, v: CostVerdicts, t: GovernorTiming) -> (
    GovernorView,
    GovernorDecision,
) {
    if !a.settled {
        (g, plain_decision(AdaptiveReason::Settling))
    } else {
        match g.trial_from {
            None => after_trial(g, a.elapsed, v, t, None, v.upper_fits),
            Some(p) => {
                let ev = EvidenceView {
                    trial_for: saturating_sum(g.evidence.trial_for, a.elapsed),
                    ..g.evidence
                };
                if ev.trial_for < t.over_budget_for {
                    (GovernorView { evidence: ev, ..g }, plain_decision(AdaptiveReason::Settling))
                } else if v.trial_without_benefit {
                    (
                        GovernorView {
                            index: p as nat,
                            trial_from: None,
                            no_benefit: true,
                            evidence: cleared(ev),
                            ..g
                        },
                        GovernorDecision {
                            reason: AdaptiveReason::NoMeasuredBenefit,
                            changed: true,
                            evidence_cleared: true,
                            trial_reverted: true,
                            ..plain_decision(AdaptiveReason::NoMeasuredBenefit)
                        },
                    )
                } else {
                    let g1 = GovernorView {
                        trial_from: None,
                        evidence: EvidenceView { overload_for: 0, headroom_for: 0, ..ev },
                        ..g
                    };
                    after_trial(g1, a.elapsed, v, t, Some(g.index as usize), v.kept_trial_fits)
                }
            },
        }
    }
}

/// The adaptive controller's integer state: its place on the quality
/// ladder, its evidence clock, a running downward trial, and whether a
/// no-benefit reference is held.
#[derive(Clone, Copy, Debug)]
pub struct AdaptiveGovernor {
    ladder: QualityLadder,
    clock: EvidenceClock,
    trial_from: Option<usize>,
    no_benefit: bool,
}

impl AdaptiveGovernor {
    /// The plain state.
    pub closed spec fn view(self) -> GovernorView {
        GovernorView {
            index: self.ladder.spec_index(),
            floor: self.ladder.spec_floor(),
            len: self.ladder.spec_len(),
            evidence: self.clock.view(),
            trial_from: self.trial_from,
            no_benefit: self.no_benefit,
        }
    }

    /// The state is consistent.
    pub open spec fn well_formed(self) -> bool {
        governor_well_formed(self.view())
    }

    /// Start at rung `index` of `len` rungs with the floor at `floor`, with
    /// no evidence.
    pub fn new(len: usize, floor: usize, index: usize) -> (r: Self)
        requires
            floor <= index < len,
        ensures
            r.well_formed(),
            r.view().index == index,
            r.view().floor == floor,
            r.view().len == len,
            r.view().trial_from is None,
            !r.view().no_benefit,
            r.view().evidence == (EvidenceView {
                epoch: None,
                last_now: None,
                last_sample: None,
                last_valid_at: None,
                ready_since: None,
                overload_for: 0,
                headroom_for: 0,
                trial_for: 0,
            }),
    {
        AdaptiveGovernor {
            ladder: QualityLadder::new(len, floor, index),
            clock: EvidenceClock::new(),
            trial_from: None,
            no_benefit: false,
        }
    }

    /// The current rung.
    pub fn index(&self) -> (r: usize)
        ensures
            r == self.view().index,
    {
        self.ladder.index()
    }

    /// The lowest permitted rung.
    pub fn floor(&self) -> (r: usize)
        ensures
            r == self.view().floor,
    {
        self.ladder.floor()
    }

    /// The rung a running downward trial started from.
    pub fn trial_from(&self) -> (r: Option<usize>)
        ensures
            r == self.view().trial_from,
    {
        self.trial_from
    }

    /// Whether a no-benefit reference is held.
    pub fn holds_no_benefit(&self) -> (r: bool)
        ensures
            r == self.view().no_benefit,
    {
        self.no_benefit
    }

    /// The evidence clock's state.
    pub fn evidence(&self) -> (r: EvidenceView)
        ensures
            r == self.view().evidence,
    {
        self.clock.snapshot()
    }

    /// Start a fresh measurement period: clear the evidence and drop the
    /// trial and the no-benefit reference (the caller forgets every rung
    /// comparison). Sample identity survives, so delayed and duplicate
    /// callbacks stay rejected.
    pub fn reset(&mut self)
        requires
            old(self).well_formed(),
        ensures
            final(self).well_formed(),
            final(self).view() == (GovernorView {
                evidence: cleared(old(self).view().evidence),
                trial_from: None,
                no_benefit: false,
                ..old(self).view()
            }),
    {
        self.clock.clear_evidence();
        self.trial_from = None;
        self.no_benefit = false;
    }

    /// Apply a changed policy whose floor is `floor`: raising the floor
    /// raises the rung to it at once, and all prior evidence is cleared.
    pub fn reconfigure(&mut self, floor: usize)
        requires
            old(self).well_formed(),
            floor < old(self).view().len,
        ensures
            final(self).well_formed(),
            final(self).view() == (GovernorView {
                floor: floor as nat,
                index: if old(self).view().index < floor {
                    floor as nat
                } else {
                    old(self).view().index
                },
                evidence: cleared(old(self).view().evidence),
                trial_from: None,
                no_benefit: false,
                ..old(self).view()
            }),
    {
        self.reset();
        self.ladder.set_floor(floor);
    }

    /// Classify a delivery. Out-of-order deliveries change nothing. A new
    /// epoch starts a fresh measurement period and forgets sample identity.
    /// A refused delivery clears the evidence. A repeated or delayed frame
    /// changes nothing more. Otherwise the sample is admitted. The rung never
    /// changes here.
    pub fn intake(&mut self, o: GovernorObservation, t: GovernorTiming) -> (r: IntakeOutcome)
        requires
            old(self).well_formed(),
        ensures
            final(self).well_formed(),
            final(self).view().index == old(self).view().index,
            final(self).view().floor == old(self).view().floor,
            final(self).view().len == old(self).view().len,
            ({
                let g = old(self).view();
                let ev = g.evidence;
                let out_of_order = (ev.last_now matches Some(last) && o.now < last) || (
                ev.epoch matches Some(e) && o.epoch < e);
                let fresh = !out_of_order && ev.epoch != Some(o.epoch);
                let entered = if fresh {
                    GovernorView {
                        evidence: EvidenceView {
                            epoch: Some(o.epoch),
                            last_now: Some(o.now),
                            last_sample: None,
                            ..cleared(ev)
                        },
                        trial_from: None,
                        no_benefit: false,
                        ..g
                    }
                } else {
                    GovernorView {
                        evidence: EvidenceView { last_now: Some(o.now), ..ev },
                        ..g
                    }
                };
                let duplicate = entered.evidence.last_sample matches Some((f, at)) && (o.frame_id
                    <= f || o.sampled_at <= at);
                if out_of_order {
                    &&& r == (IntakeOutcome {
                        intake: Intake::Decided(AdaptiveReason::OutOfOrderSample),
                        new_epoch: false,
                        evidence_cleared: false,
                    })
                    &&& final(self).view() == g
                } else if rejection(o, t.max_sample_age) is Some {
                    &&& r == (IntakeOutcome {
                        intake: Intake::Decided(rejection(o, t.max_sample_age)->0),
                        new_epoch: fresh,
                        evidence_cleared: true,
                    })
                    &&& final(self).view() == (GovernorView {
                        evidence: cleared(entered.evidence),
                        ..entered
                    })
                } else if duplicate {
                    &&& r == (IntakeOutcome {
                        intake: Intake::Decided(AdaptiveReason::OutOfOrderSample),
                        new_epoch: fresh,
                        evidence_cleared: fresh,
                    })
                    &&& final(self).view() == entered
                } else {
                    let (ev2, a) = admitted(
                        entered.evidence,
                        o.frame_id,
                        o.sampled_at,
                        t.max_sample_age,
                        t.settling_time,
                    );
                    &&& r == (IntakeOutcome {
                        intake: Intake::Measured(a),
                        new_epoch: fresh,
                        evidence_cleared: fresh,
                    })
                    &&& final(self).view() == (GovernorView { evidence: ev2, ..entered })
                }
            }),
    {
        let entry = self.clock.enter(o.now, o.epoch);
        if entry == GateEntry::OutOfOrder {
            return IntakeOutcome {
                intake: Intake::Decided(AdaptiveReason::OutOfOrderSample),
                new_epoch: false,
                evidence_cleared: false,
            };
        }
        let fresh = entry == GateEntry::NewEpoch;
        if fresh {
            self.trial_from = None;
            self.no_benefit = false;
        }
        if let Some(reason) = rejection_of(&o, t.max_sample_age) {
            self.clock.clear_evidence();
            return IntakeOutcome {
                intake: Intake::Decided(reason),
                new_epoch: fresh,
                evidence_cleared: true,
            };
        }
        match self.clock.accept_sample(o.frame_id, o.sampled_at, t.max_sample_age, t.settling_time) {
            None => IntakeOutcome {
                intake: Intake::Decided(AdaptiveReason::OutOfOrderSample),
                new_epoch: fresh,
                evidence_cleared: fresh,
            },
            Some(a) => IntakeOutcome { intake: Intake::Measured(a), new_epoch: fresh, evidence_cleared: fresh },
        }
    }
    /// The no-benefit hold, then overload, then headroom, once any running
    /// trial has been settled.
    fn after_trial_step(
        &mut self,
        dt: u64,
        v: CostVerdicts,
        t: GovernorTiming,
        kept_at: Option<usize>,
        upper_fits: bool,
    ) -> (r: GovernorDecision)
        requires
            old(self).well_formed(),
            old(self).view().trial_from is None,
        ensures
            final(self).well_formed(),
            (final(self).view(), r) == after_trial(old(self).view(), dt, v, t, kept_at, upper_fits),
    {
        if self.no_benefit && v.near_no_benefit_cost {
            return GovernorDecision {
                reason: AdaptiveReason::NoMeasuredBenefit,
                changed: false,
                evidence_cleared: false,
                trial_reverted: false,
                trial_kept_at: kept_at,
                no_benefit_cleared: false,
                trial_started: false,
            };
        }
        let no_benefit_cleared = self.no_benefit;
        self.no_benefit = false;
        let mut r = GovernorDecision {
            reason: AdaptiveReason::WithinBudget,
            changed: false,
            evidence_cleared: false,
            trial_reverted: false,
            trial_kept_at: kept_at,
            no_benefit_cleared,
            trial_started: false,
        };
        if v.over_budget {
            let sustained = self.clock.extend_overload(dt, t.over_budget_for);
            if !sustained {
                r.reason = AdaptiveReason::OverBudget;
            } else if self.ladder.at_floor() {
                r.reason = AdaptiveReason::BudgetInfeasible;
            } else {
                let from = self.ladder.index();
                self.ladder.step_down();
                self.trial_from = Some(from);
                self.clock.clear_evidence();
                r.reason = AdaptiveReason::OverBudget;
                r.changed = true;
                r.evidence_cleared = true;
                r.trial_started = true;
            }
            return r;
        }
        self.clock.end_overload();
        if v.headroom && self.ladder.can_raise() && upper_fits {
            if self.clock.extend_headroom(dt, t.headroom_for) {
                self.ladder.step_up();
                self.clock.clear_evidence();
                r.reason = AdaptiveReason::Headroom;
                r.changed = true;
                r.evidence_cleared = true;
            }
        } else {
            self.clock.end_headroom();
        }
        r
    }

    /// Decide on a usable sample admitted as `a`, given the caller's
    /// comparisons of its smoothed cost. Before settling nothing moves. A
    /// running downward trial lasts `over_budget_for`; then it is reversed
    /// if it brought no benefit, or its comparison is recorded. While the
    /// cost stays near a no-benefit reference nothing moves. Overload that
    /// lasts `over_budget_for` lowers the rung one step and starts a trial
    /// (at the floor it is reported infeasible); headroom that lasts
    /// `headroom_for` raises it one step when the higher rung is expected
    /// to fit.
    pub fn decide(&mut self, a: Admission, v: CostVerdicts, t: GovernorTiming) -> (r: GovernorDecision)
        requires
            old(self).well_formed(),
        ensures
            final(self).well_formed(),
            (final(self).view(), r) == decision(old(self).view(), a, v, t),
            final(self).view().floor == old(self).view().floor,
            final(self).view().len == old(self).view().len,
            r.changed == (final(self).view().index != old(self).view().index),
            final(self).view().index + 1 == old(self).view().index || final(self).view().index
                == old(self).view().index || final(self).view().index == old(self).view().index + 1,
            final(self).view().index < old(self).view().index ==> a.settled && v.over_budget
                && r.reason == AdaptiveReason::OverBudget && r.trial_started,
            final(self).view().index > old(self).view().index ==> a.settled && ((r.reason
                == AdaptiveReason::Headroom && v.headroom) || (r.reason
                == AdaptiveReason::NoMeasuredBenefit && r.trial_reverted
                && v.trial_without_benefit && old(self).view().trial_from == Some(
                final(self).view().index as usize,
            ))),
    {
        if !a.settled {
            return GovernorDecision {
                reason: AdaptiveReason::Settling,
                changed: false,
                evidence_cleared: false,
                trial_reverted: false,
                trial_kept_at: None,
                no_benefit_cleared: false,
                trial_started: false,
            };
        }
        let mut kept_at: Option<usize> = None;
        let mut upper_fits = v.upper_fits;
        if let Some(p) = self.trial_from {
            if !self.clock.extend_trial(a.elapsed, t.over_budget_for) {
                return GovernorDecision {
                    reason: AdaptiveReason::Settling,
                    changed: false,
                    evidence_cleared: false,
                    trial_reverted: false,
                    trial_kept_at: None,
                    no_benefit_cleared: false,
                    trial_started: false,
                };
            }
            self.trial_from = None;
            if v.trial_without_benefit {
                self.ladder.restore(p);
                self.no_benefit = true;
                self.clock.clear_evidence();
                return GovernorDecision {
                    reason: AdaptiveReason::NoMeasuredBenefit,
                    changed: true,
                    evidence_cleared: true,
                    trial_reverted: true,
                    trial_kept_at: None,
                    no_benefit_cleared: false,
                    trial_started: false,
                };
            }
            kept_at = Some(self.ladder.index());
            upper_fits = v.kept_trial_fits;
            self.clock.end_overload();
            self.clock.end_headroom();
        }
        self.after_trial_step(a.elapsed, v, t, kept_at, upper_fits)
    }
}

/// A downshift that fails to reduce the measured cost is reversed: once a
/// running trial has lasted `over_budget_for` and brought no benefit, the
/// decision returns to the rung the trial started from and holds a
/// no-benefit reference.
pub proof fn law_failed_downshift_is_reversed(
    g: GovernorView,
    a: Admission,
    v: CostVerdicts,
    t: GovernorTiming,
    from: usize,
)
    requires
        governor_well_formed(g),
        g.trial_from == Some(from),
        a.settled,
        saturating_sum(g.evidence.trial_for, a.elapsed) >= t.over_budget_for,
        v.trial_without_benefit,
    ensures
        decision(g, a, v, t).0.index == from,
        decision(g, a, v, t).0.no_benefit,
        decision(g, a, v, t).0.trial_from is None,
        decision(g, a, v, t).1.reason == AdaptiveReason::NoMeasuredBenefit,
{
}

/// Quality is lowered only by sustained overload: the overload accumulated
/// before the sample plus the sample's elapsed time reaches
/// `over_budget_for`, and the rung was above the floor.
pub proof fn law_lowering_needs_sustained_overload(
    g: GovernorView,
    a: Admission,
    v: CostVerdicts,
    t: GovernorTiming,
)
    requires
        governor_well_formed(g),
        decision(g, a, v, t).0.index < g.index,
    ensures
        v.over_budget,
        g.evidence.overload_for + a.elapsed >= t.over_budget_for,
        g.index > g.floor,
        decision(g, a, v, t).0.index == g.index - 1,
{
}

/// Quality is raised by headroom only when it has been sustained: the
/// headroom accumulated before the sample plus the sample's elapsed time
/// reaches `headroom_for`. The only other raise reverses a failed trial.
pub proof fn law_raising_needs_sustained_headroom(
    g: GovernorView,
    a: Admission,
    v: CostVerdicts,
    t: GovernorTiming,
)
    requires
        governor_well_formed(g),
        decision(g, a, v, t).0.index > g.index,
        decision(g, a, v, t).1.reason == AdaptiveReason::Headroom,
    ensures
        v.headroom,
        v.upper_fits || v.kept_trial_fits,
        !v.over_budget,
        g.evidence.headroom_for + a.elapsed >= t.headroom_for,
        decision(g, a, v, t).0.index == g.index + 1,
{
}

} // verus!
