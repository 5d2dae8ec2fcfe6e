//! Vocabulary of the adaptive-resolution policy: configuration errors, the
//! validity of a cost sample, and the reasons a decision reports.
//!
//! The policy consumes fresh, validated GPU frame-cost measurements; it never
//! infers GPU pressure from app cadence.

use vstd::prelude::*;

verus! {

/// Why an adaptive policy or ladder was rejected.
#[derive(Clone, Copy, Debug, PartialEq, Eq, Structural)]
pub enum AdaptiveConfigError {
    InvalidTarget,
    InvalidMinimumScale,
    InvalidLadder,
    NoAllowedScale,
    InvalidStartingScale,
    InvalidTiming,
    InvalidThresholds,
}

impl AdaptiveConfigError {
    /// The human-readable description of this error.
    pub open spec fn spec_message(self) -> &'static str {
        match self {
            AdaptiveConfigError::InvalidTarget => "target FPS must give a positive finite frame budget",
            AdaptiveConfigError::InvalidMinimumScale => "minimum scale must be finite and in (0, 1]",
            AdaptiveConfigError::InvalidLadder => "scale ladder must be nonempty, strictly ascending, and in (0, 1]",
            AdaptiveConfigError::NoAllowedScale => "scale ladder has no rung at or above the quality floor",
            AdaptiveConfigError::InvalidStartingScale => "starting scale must be finite and in (0, 1]",
            AdaptiveConfigError::InvalidTiming => "smoothing, evidence, and sample-age intervals must be nonzero",
            AdaptiveConfigError::InvalidThresholds => "overload ratio must be >= 1; headroom and benefit fractions must be in (0, 1)",
        }
    }

    /// The human-readable description of this error.
    pub fn message(&self) -> (r: &'static str)
        ensures
            r == self.spec_message(),
    {
        match self {
            AdaptiveConfigError::InvalidTarget => "target FPS must give a positive finite frame budget",
            AdaptiveConfigError::InvalidMinimumScale => "minimum scale must be finite and in (0, 1]",
            AdaptiveConfigError::InvalidLadder => "scale ladder must be nonempty, strictly ascending, and in (0, 1]",
            AdaptiveConfigError::NoAllowedScale => "scale ladder has no rung at or above the quality floor",
            AdaptiveConfigError::InvalidStartingScale => "starting scale must be finite and in (0, 1]",
            AdaptiveConfigError::InvalidTiming => "smoothing, evidence, and sample-age intervals must be nonzero",
            AdaptiveConfigError::InvalidThresholds => "overload ratio must be >= 1; headroom and benefit fractions must be in (0, 1)",
        }
    }
}

/// What the adapter established about a cost sample.
#[derive(Clone, Copy, Debug, PartialEq, Eq, Structural)]
pub enum AdaptiveSampleValidity {
    /// The adapter has validated this signal's frame coverage and GPU semantics.
    ValidatedFrameCost,
    Unavailable,
    UnvalidatedScope,
}

/// Why the adaptive controller held, lowered, or raised the scale.
#[derive(Clone, Copy, Debug, PartialEq, Eq, Structural)]
pub enum AdaptiveReason {
    Settling,
    Unavailable,
    UnvalidatedScope,
    InvalidSample,
    StaleSample,
    OutOfOrderSample,
    ScaleMismatch,
    EffectPending,
    WithinBudget,
    Headroom,
    OverBudget,
    BudgetInfeasible,
    NoMeasuredBenefit,
}

/// The controller's position on its ascending scale ladder: the current
/// rung and the lowest rung the quality floor permits. Every operation keeps
/// `floor <= index < len`: the controller never crosses the floor and never
/// leaves the ladder.
#[derive(Clone, Copy, Debug)]
pub struct QualityLadder {
    index: usize,
    floor: usize,
    len: usize,
}

impl QualityLadder {
    /// The current rung.
    pub closed spec fn spec_index(self) -> nat {
        self.index as nat
    }

    /// The lowest permitted rung.
    pub closed spec fn spec_floor(self) -> nat {
        self.floor as nat
    }

    /// The number of rungs.
    pub closed spec fn spec_len(self) -> nat {
        self.len as nat
    }

    /// The rung lies between the floor and the top of the ladder.
    pub open spec fn well_formed(self) -> bool {
        self.spec_floor() <= self.spec_index() < self.spec_len()
    }

    /// Start at `index` on a ladder of `len` rungs with floor `floor`.
    pub fn new(len: usize, floor: usize, index: usize) -> (r: Self)
        requires
            floor <= index < len,
        ensures
            r.well_formed(),
            r.spec_index() == index,
            r.spec_floor() == floor,
            r.spec_len() == len,
    {
        QualityLadder { index, floor, len }
    }

    /// The current rung.
    pub fn index(&self) -> (r: usize)
        ensures
            r == self.spec_index(),
    {
        self.index
    }

    /// The lowest permitted rung.
    pub fn floor(&self) -> (r: usize)
        ensures
            r == self.spec_floor(),
    {
        self.floor
    }

    /// Whether the current rung is the floor: overload here is infeasible.
    pub fn at_floor(&self) -> (r: bool)
        ensures
            r == (self.spec_index() == self.spec_floor()),
    {
        self.index == self.floor
    }

    /// Whether a higher rung exists.
    pub fn can_raise(&self) -> (r: bool)
        ensures
            r == (self.spec_index() + 1 < self.spec_len()),
    {
        self.index < self.len && self.index + 1 < self.len
    }

    /// Move one rung down; only above the floor.
    pub fn step_down(&mut self)
        requires
            old(self).well_formed(),
            old(self).spec_index() > old(self).spec_floor(),
        ensures
            final(self).well_formed(),
            final(self).spec_index() == old(self).spec_index() - 1,
            final(self).spec_floor() == old(self).spec_floor(),
            final(self).spec_len() == old(self).spec_len(),
    {
        self.index = self.index - 1;
    }

    /// Move one rung up; only below the top.
    pub fn step_up(&mut self)
        requires
            old(self).well_formed(),
            old(self).spec_index() + 1 < old(self).spec_len(),
        ensures
            final(self).well_formed(),
            final(self).spec_index() == old(self).spec_index() + 1,
            final(self).spec_floor() == old(self).spec_floor(),
            final(self).spec_len() == old(self).spec_len(),
    {
        self.index = self.index + 1;
    }

    /// Return to a previous rung, as when a downshift brought no benefit.
    pub fn restore(&mut self, previous: usize)
        requires
            old(self).well_formed(),
            old(self).spec_floor() <= previous < old(self).spec_len(),
        ensures
            final(self).well_formed(),
            final(self).spec_index() == previous,
            final(self).spec_floor() == old(self).spec_floor(),
            final(self).spec_len() == old(self).spec_len(),
    {
        self.index = previous;
    }

    /// Apply a new floor: raising it lifts the rung to the floor at once;
    /// lowering it keeps the rung.
    pub fn set_floor(&mut self, floor: usize)
        requires
            old(self).well_formed(),
            floor < old(self).spec_len(),
        ensures
            final(self).well_formed(),
            final(self).spec_floor() == floor,
            final(self).spec_index() == if old(self).spec_index() < floor {
                floor as nat
            } else {
                old(self).spec_index()
            },
            final(self).spec_len() == old(self).spec_len(),
    {
        self.floor = floor;
        if self.index < floor {
            self.index = floor;
        }
    }
}

/// How a delivered sample relates to the measurement identity already seen.
#[derive(Clone, Copy, Debug, PartialEq, Eq, Structural)]
pub enum GateEntry {
    /// The delivery time went backwards or the epoch is older: ignore it.
    OutOfOrder,
    /// The same epoch as before.
    SameEpoch,
    /// A newer (or first) epoch: all learned evidence must be discarded.
    NewEpoch,
}

/// The integer side of the controller's evidence: sample identity, its
/// timing, the settling window, and the accumulated overload, headroom and
/// trial durations. Times are nanoseconds on the controller's clock.
#[derive(Clone, Copy, Debug)]
pub struct EvidenceClock {
    epoch: Option<u64>,
    last_now: Option<u64>,
    last_sample: Option<(u64, u64)>,
    last_valid_at: Option<u64>,
    ready_since: Option<u64>,
    overload_for: u64,
    headroom_for: u64,
    trial_for: u64,
}

/// A snapshot of an [`EvidenceClock`].
#[derive(Clone, Copy, Debug)]
pub struct EvidenceView {
    pub epoch: Option<u64>,
    pub last_now: Option<u64>,
    pub last_sample: Option<(u64, u64)>,
    pub last_valid_at: Option<u64>,
    pub ready_since: Option<u64>,
    pub overload_for: u64,
    pub headroom_for: u64,
    pub trial_for: u64,
}

/// Evidence is consistent: the last usable sample is the last admitted one,
/// and the settling window began no later than it.
pub open spec fn evidence_well_formed(v: EvidenceView) -> bool {
    &&& (v.last_valid_at matches Some(t) ==> (v.last_sample matches Some((f, at)) && at == t))
    &&& (v.ready_since matches Some(s) ==> (v.last_valid_at matches Some(t) && s <= t))
}

/// The evidence after clearing: sample identity survives, so delayed and
/// duplicate callbacks stay rejected; timing and accumulated durations reset.
pub open spec fn cleared(v: EvidenceView) -> EvidenceView {
    EvidenceView {
        last_valid_at: None,
        ready_since: None,
        overload_for: 0,
        headroom_for: 0,
        trial_for: 0,
        ..v
    }
}

/// `a + b`, saturating at `u64::MAX`.
pub open spec fn saturating_sum(a: u64, b: u64) -> u64 {
    if a + b > u64::MAX {
        u64::MAX
    } else {
        (a + b) as u64
    }
}

/// The result of admitting a sample's identity.
#[derive(Clone, Copy, Debug, PartialEq, Eq, Structural)]
pub struct Admission {
    /// Time since the previous usable sample, zero after a pause.
    pub elapsed: u64,
    /// Whether the settling time has passed since evidence began.
    pub settled: bool,
    /// No earlier usable sample counts: smoothing starts afresh from this one.
    pub fresh_start: bool,
}

/// The evidence after admitting a sample of frame `frame_id` measured at
/// `sampled_at`, and the admission: a gap since the previous usable sample
/// longer than `max_sample_age` is a pause that clears the evidence first.
pub open spec fn admitted(
    v: EvidenceView,
    frame_id: u64,
    sampled_at: u64,
    max_sample_age: u64,
    settling_time: u64,
) -> (EvidenceView, Admission) {
    let gap: int = match v.last_valid_at {
        Some(at) => sampled_at - at,
        None => 0,
    };
    let base = if gap > max_sample_age {
        cleared(v)
    } else {
        v
    };
    let since = match base.ready_since {
        Some(s) => s,
        None => sampled_at,
    };
    (
        EvidenceView {
            last_sample: Some((frame_id, sampled_at)),
            last_valid_at: Some(sampled_at),
            ready_since: Some(since),
            ..base
        },
        Admission {
            elapsed: if gap > max_sample_age {
                0
            } else {
                gap as u64
            },
            settled: sampled_at - since >= settling_time,
            fresh_start: base.last_valid_at is None,
        },
    )
}

/// Decisions follow measured time, never a count of frames: the frame
/// number of an admitted sample only orders deliveries; the admission and
/// the evidence's timing are the same whatever it is.
pub proof fn law_admission_ignores_frame_numbers(
    v: EvidenceView,
    frame_a: u64,
    frame_b: u64,
    sampled_at: u64,
    max_sample_age: u64,
    settling_time: u64,
)
    ensures
        admitted(v, frame_a, sampled_at, max_sample_age, settling_time).1 == admitted(
            v,
            frame_b,
            sampled_at,
            max_sample_age,
            settling_time,
        ).1,
        admitted(v, frame_a, sampled_at, max_sample_age, settling_time).0 == (EvidenceView {
            last_sample: Some((frame_a, sampled_at)),
            ..admitted(v, frame_b, sampled_at, max_sample_age, settling_time).0
        }),
{
}

impl EvidenceClock {
    /// The current evidence.
    pub closed spec fn view(self) -> EvidenceView {
        EvidenceView {
            epoch: self.epoch,
            last_now: self.last_now,
            last_sample: self.last_sample,
            last_valid_at: self.last_valid_at,
            ready_since: self.ready_since,
            overload_for: self.overload_for,
            headroom_for: self.headroom_for,
            trial_for: self.trial_for,
        }
    }

    /// No sample seen yet.
    pub fn new() -> (r: Self)
        ensures
            r.view() == (EvidenceView {
                epoch: None,
                last_now: None,
                last_sample: None,
                last_valid_at: None,
                ready_since: None,
                overload_for: 0,
                headroom_for: 0,
                trial_for: 0,
            }),
            evidence_well_formed(r.view()),
    {
        EvidenceClock {
            epoch: None,
            last_now: None,
            last_sample: None,
            last_valid_at: None,
            ready_since: None,
            overload_for: 0,
            headroom_for: 0,
            trial_for: 0,
        }
    }

    /// The current evidence, as plain values.
    pub fn snapshot(&self) -> (r: EvidenceView)
        ensures
            r == self.view(),
    {
        EvidenceView {
            epoch: self.epoch,
            last_now: self.last_now,
            last_sample: self.last_sample,
            last_valid_at: self.last_valid_at,
            ready_since: self.ready_since,
            overload_for: self.overload_for,
            headroom_for: self.headroom_for,
            trial_for: self.trial_for,
        }
    }

    /// Classify a delivery at `now` of epoch `epoch` and record it. An
    /// out-of-order delivery changes nothing. A new epoch clears the evidence
    /// and forgets the previous sample identity.
    pub fn enter(&mut self, now: u64, epoch: u64) -> (r: GateEntry)
        requires
            evidence_well_formed(old(self).view()),
        ensures
            evidence_well_formed(final(self).view()),
            r == GateEntry::OutOfOrder <==> ((old(self).view().last_now matches Some(last) && now
                < last) || (old(self).view().epoch matches Some(e) && epoch < e)),
            r == GateEntry::OutOfOrder ==> final(self).view() == old(self).view(),
            r == GateEntry::SameEpoch ==> old(self).view().epoch == Some(epoch)
                && final(self).view() == (EvidenceView { last_now: Some(now), ..old(self).view() }),
            r == GateEntry::NewEpoch ==> old(self).view().epoch != Some(epoch) && final(self).view()
                == (EvidenceView {
                epoch: Some(epoch),
                last_now: Some(now),
                last_sample: None,
                ..cleared(old(self).view())
            }),
    {
        let backwards = match self.last_now {
            Some(last) => now < last,
            None => false,
        };
        let older = match self.epoch {
            Some(e) => epoch < e,
            None => false,
        };
        if backwards || older {
            return GateEntry::OutOfOrder;
        }
        self.last_now = Some(now);
        let same = match self.epoch {
            Some(e) => e == epoch,
            None => false,
        };
        if same {
            GateEntry::SameEpoch
        } else {
            self.clear_evidence();
            self.epoch = Some(epoch);
            self.last_sample = None;
            GateEntry::NewEpoch
        }
    }

    /// Discard timing and accumulated durations, keeping sample identity.
    pub fn clear_evidence(&mut self)
        ensures
            final(self).view() == cleared(old(self).view()),
            evidence_well_formed(final(self).view()),
    {
        self.last_valid_at = None;
        self.ready_since = None;
        self.overload_for = 0;
        self.headroom_for = 0;
        self.trial_for = 0;
    }

    /// Admit a usable sample of frame `frame_id` measured at `sampled_at`.
    /// `None` rejects a repeated or delayed frame or measurement without
    /// changing anything. Otherwise the elapsed time since the previous
    /// usable sample is returned (a gap longer than `max_sample_age` is a
    /// pause: evidence is cleared and the elapsed time is zero), and whether
    /// `settling_time` has passed since evidence began.
    pub fn accept_sample(
        &mut self,
        frame_id: u64,
        sampled_at: u64,
        max_sample_age: u64,
        settling_time: u64,
    ) -> (r: Option<Admission>)
        requires
            evidence_well_formed(old(self).view()),
        ensures
            evidence_well_formed(final(self).view()),
            r is None <==> (old(self).view().last_sample matches Some((f, at)) && (frame_id <= f
                || sampled_at <= at)),
            r is None ==> final(self).view() == old(self).view(),
            r matches Some(a) ==> (final(self).view(), a) == admitted(
                old(self).view(),
                frame_id,
                sampled_at,
                max_sample_age,
                settling_time,
            ),
    {
        if let Some((f, at)) = self.last_sample {
            if frame_id <= f || sampled_at <= at {
                return None;
            }
        }
        let mut elapsed: u64 = match self.last_valid_at {
            Some(at) => sampled_at - at,
            None => 0,
        };
        if elapsed > max_sample_age {
            self.clear_evidence();
            elapsed = 0;
        }
        let fresh_start = self.last_valid_at.is_none();
        self.last_sample = Some((frame_id, sampled_at));
        self.last_valid_at = Some(sampled_at);
        let since = match self.ready_since {
            Some(s) => s,
            None => sampled_at,
        };
        self.ready_since = Some(since);
        Some(Admission { elapsed, settled: sampled_at - since >= settling_time, fresh_start })
    }

    /// Add `dt` to the running downward trial; whether it has now lasted
    /// `needed`.
    pub fn extend_trial(&mut self, dt: u64, needed: u64) -> (r: bool)
        ensures
            final(self).view() == (EvidenceView {
                trial_for: saturating_sum(old(self).view().trial_for, dt),
                ..old(self).view()
            }),
            r == (final(self).view().trial_for >= needed),
    {
        self.trial_for = self.trial_for.saturating_add(dt);
        self.trial_for >= needed
    }

    /// Add `dt` to the sustained overload, ending any headroom; whether the
    /// overload has now lasted `needed`.
    pub fn extend_overload(&mut self, dt: u64, needed: u64) -> (r: bool)
        ensures
            final(self).view() == (EvidenceView {
                overload_for: saturating_sum(old(self).view().overload_for, dt),
                headroom_for: 0,
                ..old(self).view()
            }),
            r == (final(self).view().overload_for >= needed),
    {
        self.headroom_for = 0;
        self.overload_for = self.overload_for.saturating_add(dt);
        self.overload_for >= needed
    }

    /// Add `dt` to the sustained headroom; whether it has now lasted `needed`.
    pub fn extend_headroom(&mut self, dt: u64, needed: u64) -> (r: bool)
        ensures
            final(self).view() == (EvidenceView {
                headroom_for: saturating_sum(old(self).view().headroom_for, dt),
                ..old(self).view()
            }),
            r == (final(self).view().headroom_for >= needed),
    {
        self.headroom_for = self.headroom_for.saturating_add(dt);
        self.headroom_for >= needed
    }

    /// End the sustained overload.
    pub fn end_overload(&mut self)
        ensures
            final(self).view() == (EvidenceView { overload_for: 0, ..old(self).view() }),
    {
        self.overload_for = 0;
    }

    /// End the sustained headroom.
    pub fn end_headroom(&mut self)
        ensures
            final(self).view() == (EvidenceView { headroom_for: 0, ..old(self).view() }),
    {
        self.headroom_for = 0;
    }
}

} // verus!
