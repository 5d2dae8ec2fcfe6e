//! Experimental per-view GPU elapsed intervals. Never a validated governor input.
//!
//! Two marker passes bracket a view's frame with GPU timestamp queries. This
//! module decides which query results are accepted, keeps the bounded
//! history an unread consumer cannot grow, and drives the query slots through
//! their encode, submit, and readback phases without ever waiting on the GPU.
//! Ticks are raw timestamp values; ages are nanoseconds.

use crate::mode::MetalFxMode;
use crate::ring::{newest, SampleRing};
use vstd::prelude::*;

verus! {

/// Observations a history retains before the oldest is dropped.
pub const HISTORY_CAPACITY: usize = 240;

/// Query slots that may be in flight at once.
pub const MAX_IN_FLIGHT: usize = 8;

/// Oldest acceptable result, and longest acceptable frame envelope, in nanoseconds.
pub const MAX_SAMPLE_AGE_NANOS: u64 = 2_000_000_000;

/// Reason recorded with an observation that produced an elapsed interval.
pub const REASON_MEASURED: &'static str = "experimental marker envelope; rendered coverage unvalidated";

/// Reason recorded with an observation whose queries were rejected.
pub const REASON_REJECTED: &'static str = "invalid, missing, or stale GPU queries";

/// State of the explicitly enabled timing experiment.
#[derive(Debug, Clone, Copy, PartialEq, Eq, Structural)]
pub enum ExperimentalTimingStatus {
    Pending,
    Unavailable,
    Failed,
    /// Query values exist; render coverage and presentation safety remain unvalidated.
    ObservedUnvalidated,
}

impl Default for ExperimentalTimingStatus {
    fn default() -> (r: Self)
        ensures
            r == ExperimentalTimingStatus::Pending,
    {
        ExperimentalTimingStatus::Pending
    }
}

/// The tick span of a begin/end pair, or `None` when either tick is
/// missing (zero or all ones) or the end does not follow the begin.
pub open spec fn tick_span(begin: u64, end: u64) -> Option<u64> {
    if begin == 0 || end == u64::MAX || end <= begin {
        None
    } else {
        Some((end - begin) as u64)
    }
}

/// Check one begin/end timestamp pair; a missing query is not zero cost.
pub fn tick_interval(ticks: [u64; 2]) -> (r: Option<u64>)
    ensures
        r == tick_span(ticks[0], ticks[1]),
{
    if ticks[0] == 0 || ticks[1] == u64::MAX || ticks[1] <= ticks[0] {
        None
    } else {
        Some(ticks[1] - ticks[0])
    }
}

/// The tick span of a frame's full marker envelope when every integer
/// condition for accepting it holds: the readback mapped, both markers were
/// encoded, the result is not older than the limit, the envelope starts after
/// the previous accepted one ended, the markers do not overlap, and each
/// marker and the envelope are complete intervals.
pub open spec fn accepted_span(
    ticks: [u64; 4],
    previous_end: u64,
    age: u64,
    both_markers_encoded: bool,
    map_succeeded: bool,
) -> Option<u64> {
    if !map_succeeded || !both_markers_encoded || age > MAX_SAMPLE_AGE_NANOS || ticks[0]
        <= previous_end || ticks[2] < ticks[1] || tick_span(ticks[0], ticks[1]) is None
        || tick_span(ticks[2], ticks[3]) is None {
        None
    } else {
        tick_span(ticks[0], ticks[3])
    }
}

/// Decide whether a frame's four timestamps form an acceptable envelope,
/// returning its tick span. Converting ticks to time, and bounding that time,
/// is left to the caller that knows the timestamp period.
pub fn accepted_ticks(
    ticks: [u64; 4],
    previous_end: u64,
    age: u64,
    both_markers_encoded: bool,
    map_succeeded: bool,
) -> (r: Option<u64>)
    ensures
        r == accepted_span(ticks, previous_end, age, both_markers_encoded, map_succeeded),
{
    if !map_succeeded || !both_markers_encoded || age > MAX_SAMPLE_AGE_NANOS || ticks[0]
        <= previous_end || ticks[2] < ticks[1] {
        return None;
    }
    if tick_interval([ticks[0], ticks[1]]).is_none() || tick_interval(
        [ticks[2], ticks[3]],
    ).is_none() {
        return None;
    }
    tick_interval([ticks[0], ticks[3]])
}

/// An accepted envelope always begins after the previous one ended and has
/// positive length, so accepted intervals of one slot never overlap.
pub proof fn law_accepted_envelopes_do_not_overlap(
    ticks: [u64; 4],
    previous_end: u64,
    age: u64,
    both: bool,
    mapped: bool,
)
    requires
        accepted_span(ticks, previous_end, age, both, mapped) is Some,
    ensures
        previous_end < ticks[0] < ticks[3],
        ticks[0] < ticks[1] <= ticks[2] < ticks[3],
        age <= MAX_SAMPLE_AGE_NANOS,
{
}

/// The shared state of the timing experiment: its status, the reason for
/// it, the bounded observation history, and the count of skipped samples.
///
/// The history is a ring of [`HISTORY_CAPACITY`] slots rather than a queue
/// that pops its front when full: both keep exactly the newest observations,
/// oldest first (see `law_newest_of_push`), and the ring never moves the
/// elements it keeps.
#[derive(Debug, Clone)]
pub struct TimingHistory<T> {
    status: ExperimentalTimingStatus,
    reason: Option<&'static str>,
    observations: SampleRing<T>,
    dropped_samples: u64,
}

/// A copy of the timing state; observers never wait on the GPU.
#[derive(Debug, Clone)]
pub struct TimingSnapshot<T> {
    pub status: ExperimentalTimingStatus,
    pub reason: Option<&'static str>,
    pub observations: Vec<T>,
    pub dropped_samples: u64,
}

impl<T: Copy> TimingHistory<T> {
    /// The current status.
    pub closed spec fn spec_status(&self) -> ExperimentalTimingStatus {
        self.status
    }

    /// The current reason.
    pub closed spec fn spec_reason(&self) -> Option<&'static str> {
        self.reason
    }

    /// The retained observations, oldest first.
    pub closed spec fn spec_observations(&self) -> Seq<T> {
        self.observations.view()
    }

    /// Samples skipped without waiting, saturating.
    pub closed spec fn spec_dropped(&self) -> u64 {
        self.dropped_samples
    }

    /// The history keeps at most [`HISTORY_CAPACITY`] observations.
    pub closed spec fn well_formed(&self) -> bool {
        &&& self.observations.well_formed()
        &&& self.observations.spec_capacity() == HISTORY_CAPACITY
    }

    /// Pending, with nothing observed or dropped.
    pub fn new() -> (r: Self)
        ensures
            r.well_formed(),
            r.spec_status() == ExperimentalTimingStatus::Pending,
            r.spec_reason() is None,
            r.spec_observations() == Seq::<T>::empty(),
            r.spec_dropped() == 0,
    {
        TimingHistory {
            status: ExperimentalTimingStatus::Pending,
            reason: None,
            observations: SampleRing::new(HISTORY_CAPACITY),
            dropped_samples: 0,
        }
    }

    /// Record a completed observation with its status; `measured` says
    /// whether its queries produced an elapsed interval. At capacity the
    /// oldest observation is dropped, so an unread consumer stays bounded.
    pub fn publish(&mut self, observation: T, status: ExperimentalTimingStatus, measured: bool)
        requires
            old(self).well_formed(),
        ensures
            final(self).well_formed(),
            final(self).spec_status() == status,
            final(self).spec_reason() == Some(
                if measured {
                    REASON_MEASURED
                } else {
                    REASON_REJECTED
                },
            ),
            final(self).spec_observations() == newest(
                HISTORY_CAPACITY as nat,
                old(self).spec_observations().push(observation),
            ),
            final(self).spec_dropped() == old(self).spec_dropped(),
    {
        self.status = status;
        self.reason = Some(
            if measured {
                REASON_MEASURED
            } else {
                REASON_REJECTED
            },
        );
        self.observations.push(observation);
    }

    /// Record a status change without an observation; `dropped` counts a
    /// skipped sample, saturating at `u64::MAX`.
    pub fn set_status(&mut self, status: ExperimentalTimingStatus, reason: &'static str, dropped: bool)
        requires
            old(self).well_formed(),
        ensures
            final(self).well_formed(),
            final(self).spec_status() == status,
            final(self).spec_reason() == Some(reason),
            final(self).spec_observations() == old(self).spec_observations(),
            final(self).spec_dropped() == if dropped && old(self).spec_dropped() < u64::MAX {
                (old(self).spec_dropped() + 1) as u64
            } else {
                old(self).spec_dropped()
            },
    {
        self.status = status;
        self.reason = Some(reason);
        if dropped {
            self.dropped_samples = self.dropped_samples.saturating_add(1);
        }
    }

    /// Copy the current state, observations oldest first.
    pub fn snapshot(&self) -> (r: TimingSnapshot<T>)
        requires
            self.well_formed(),
        ensures
            r.status == self.spec_status(),
            r.reason == self.spec_reason(),
            r.observations@ == self.spec_observations(),
            r.dropped_samples == self.spec_dropped(),
    {
        TimingSnapshot {
            status: self.status,
            reason: self.reason,
            observations: self.observations.snapshot(),
            dropped_samples: self.dropped_samples,
        }
    }
}

/// Where a query slot is in its encode, submit and readback cycle.
#[derive(Debug, Clone, Copy, PartialEq, Eq, Structural)]
pub enum SlotPhase {
    /// Free for a new frame.
    Idle,
    /// The begin marker was encoded; the end marker is still owed.
    Begun,
    /// Both markers (or a failed end marker) were encoded this frame.
    Encoded,
    /// The frame was submitted; waiting for the GPU to finish it.
    WorkloadPending,
    /// The query results are being mapped for reading.
    Mapping,
}

/// How a view's begin marker finds a slot.
#[derive(Debug, Clone, Copy, PartialEq, Eq, Structural)]
pub enum SlotChoice {
    /// Reuse the first idle slot.
    Reuse(usize),
    /// Allocate one more slot.
    Grow,
    /// Every slot is busy and no more may be allocated: skip this sample.
    Full,
}

/// Pick a slot for a new frame: the first idle one, else a new one while
/// fewer than [`MAX_IN_FLIGHT`] exist, else none. Never waits.
pub fn choose_slot(phases: &Vec<SlotPhase>) -> (r: SlotChoice)
    ensures
        r matches SlotChoice::Reuse(i) ==> i < phases@.len() && phases@[i as int]
            == SlotPhase::Idle && forall|j: int| 0 <= j < i ==> phases@[j] != SlotPhase::Idle,
        !(r is Reuse) ==> forall|j: int| 0 <= j < phases@.len() ==> phases@[j] != SlotPhase::Idle,
        r is Grow <==> (!(r is Reuse) && phases@.len() < MAX_IN_FLIGHT),
{
    let mut i: usize = 0;
    while i < phases.len()
        invariant
            i <= phases@.len(),
            forall|j: int| 0 <= j < i ==> phases@[j] != SlotPhase::Idle,
        decreases phases@.len() - i,
    {
        if phases[i] == SlotPhase::Idle {
            return SlotChoice::Reuse(i);
        }
        i = i + 1;
    }
    if phases.len() < MAX_IN_FLIGHT {
        SlotChoice::Grow
    } else {
        SlotChoice::Full
    }
}

/// Whether some slot already holds the `(frame, view)` identity.
pub fn has_duplicate(identities: &Vec<Option<(u64, u64)>>, frame_id: u64, view_id: u64) -> (r:
    bool)
    ensures
        r <==> exists|j: int|
            0 <= j < identities@.len() && identities@[j] == Some((frame_id, view_id)),
{
    let mut i: usize = 0;
    while i < identities.len()
        invariant
            i <= identities@.len(),
            forall|j: int| 0 <= j < i ==> identities@[j] != Some((frame_id, view_id)),
        decreases identities@.len() - i,
    {
        if let Some((f, v)) = identities[i] {
            if f == frame_id && v == view_id {
                return true;
            }
        }
        i = i + 1;
    }
    false
}

/// After the frame is submitted: a slot whose end marker never encoded is
/// failed but still armed (its queries will be rejected), and every encoded
/// slot starts waiting for its workload. Returns the new phase and whether
/// the end marker was missing.
pub fn arm_phase(phase: SlotPhase) -> (r: (SlotPhase, bool))
    ensures
        r.1 == (phase == SlotPhase::Begun),
        r.0 == if phase == SlotPhase::Begun || phase == SlotPhase::Encoded {
            SlotPhase::WorkloadPending
        } else {
            phase
        },
{
    match phase {
        SlotPhase::Begun => (SlotPhase::WorkloadPending, true),
        SlotPhase::Encoded => (SlotPhase::WorkloadPending, false),
        other => (other, false),
    }
}

/// What one harvest pass does for a slot.
#[derive(Debug, Clone, Copy, PartialEq, Eq, Structural)]
pub enum HarvestAction {
    /// Nothing is ready; leave the slot as it is.
    Wait,
    /// The workload finished: resolve the queries and start mapping them.
    StartMapping,
    /// The mapping finished: read the results (if it succeeded), publish,
    /// and free the slot.
    Complete { mapped: bool },
    /// Still waiting past the age limit: report it, keep the storage.
    Overdue,
}

/// Decide one harvest step without polling or waiting: `workload_done` is
/// the submitted-work signal, `map_result` the mapping outcome once known,
/// and `overdue` whether the frame was encoded longer ago than the limit.
pub fn harvest_step(
    phase: SlotPhase,
    workload_done: bool,
    map_result: Option<bool>,
    overdue: bool,
) -> (r: HarvestAction)
    ensures
        phase == SlotPhase::WorkloadPending && workload_done ==> r == HarvestAction::StartMapping,
        phase == SlotPhase::Mapping && map_result is Some ==> r == (HarvestAction::Complete {
            mapped: map_result->0,
        }),
        ((phase == SlotPhase::WorkloadPending && !workload_done) || (phase == SlotPhase::Mapping
            && map_result is None)) ==> r == if overdue {
            HarvestAction::Overdue
        } else {
            HarvestAction::Wait
        },
        phase != SlotPhase::WorkloadPending && phase != SlotPhase::Mapping ==> r
            == HarvestAction::Wait,
{
    match phase {
        SlotPhase::WorkloadPending => {
            if workload_done {
                HarvestAction::StartMapping
            } else if overdue {
                HarvestAction::Overdue
            } else {
                HarvestAction::Wait
            }
        },
        SlotPhase::Mapping => {
            match map_result {
                Some(mapped) => HarvestAction::Complete { mapped },
                None => if overdue {
                    HarvestAction::Overdue
                } else {
                    HarvestAction::Wait
                },
            }
        },
        _ => HarvestAction::Wait,
    }
}

/// The phase a slot takes after a harvest action.
pub open spec fn phase_after(phase: SlotPhase, action: HarvestAction) -> SlotPhase {
    match action {
        HarvestAction::StartMapping => SlotPhase::Mapping,
        HarvestAction::Complete { .. } => SlotPhase::Idle,
        _ => phase,
    }
}

/// Apply a harvest action to a slot's phase.
pub fn apply_harvest(phase: SlotPhase, action: HarvestAction) -> (r: SlotPhase)
    ensures
        r == phase_after(phase, action),
        action is Complete ==> r == SlotPhase::Idle,
        action is StartMapping ==> r == SlotPhase::Mapping,
        (action is Wait || action is Overdue) ==> r == phase,
{
    match action {
        HarvestAction::StartMapping => SlotPhase::Mapping,
        HarvestAction::Complete { .. } => SlotPhase::Idle,
        _ => phase,
    }
}

/// The newest accepted envelope end of a slot: it only moves forward, and
/// only for an accepted result.
pub fn next_end_tick(last_end_tick: u64, ticks: [u64; 4], accepted: bool) -> (r: u64)
    ensures
        r == if accepted && ticks[3] > last_end_tick {
            ticks[3]
        } else {
            last_end_tick
        },
{
    if accepted && ticks[3] > last_end_tick {
        ticks[3]
    } else {
        last_end_tick
    }
}

/// The number of cameras with a nonzero physical target.
pub open spec fn active_camera_count(targets: Seq<Option<[u32; 2]>>) -> nat
    decreases targets.len(),
{
    if targets.len() == 0 {
        0
    } else {
        let rest = active_camera_count(targets.drop_last());
        match targets.last() {
            Some(size) => if size[0] > 0 && size[1] > 0 {
                rest + 1
            } else {
                rest
            },
            None => rest,
        }
    }
}

/// Whether the timing experiment can run: it supports exactly one camera
/// with a nonzero physical target size (`targets` holds each camera's).
pub fn single_active_camera(targets: &Vec<Option<[u32; 2]>>) -> (r: bool)
    ensures
        r == (active_camera_count(targets@) == 1),
{
    let mut count: u64 = 0;
    let mut i: usize = 0;
    while i < targets.len()
        invariant
            i <= targets.len(),
            count <= 2,
            count == if active_camera_count(targets@.take(i as int)) > 2 {
                2
            } else {
                active_camera_count(targets@.take(i as int))
            },
        decreases targets.len() - i,
    {
        proof {
            assert(targets@.take(i + 1).drop_last() == targets@.take(i as int));
            assert(targets@.take(i + 1).last() == targets@[i as int]);
        }
        let active = match targets[i] {
            Some(size) => size[0] > 0 && size[1] > 0,
            None => false,
        };
        if active && count < 2 {
            count = count + 1;
        }
        i = i + 1;
    }
    proof {
        assert(targets@.take(targets.len() as int) == targets@);
    }
    count == 1
}

/// The configuration a timing request is encoded under.
#[derive(Debug, Clone, Copy, PartialEq, Eq)]
pub struct TimingView {
    pub view_id: u64,
    pub mode: MetalFxMode,
    /// Bit pattern of the `f32` render scale.
    pub scale_bits: u32,
    pub output_size: [u32; 2],
}

/// The adaptive controller's published measurement context.
#[derive(Debug, Clone, Copy, PartialEq, Eq)]
pub struct AdaptiveIdentity {
    pub epoch: u64,
    pub view_id: Option<u64>,
    pub mode: MetalFxMode,
    /// Bit pattern of the `f32` render scale.
    pub scale_bits: u32,
    pub output_size: [u32; 2],
}

/// The configuration generation after a request: it moves on, saturating,
/// exactly when the configuration differs from the previous one.
pub fn next_generation(generation: u64, configuration_changed: bool) -> (r: u64)
    ensures
        r == if configuration_changed && generation < u64::MAX {
            (generation + 1) as u64
        } else {
            generation
        },
{
    if configuration_changed {
        generation.saturating_add(1)
    } else {
        generation
    }
}

/// The adaptive epoch a timing request belongs to: the context's epoch when
/// it describes this view, mode, render scale and output size; otherwise
/// none.
pub fn adaptive_epoch_for(context: Option<AdaptiveIdentity>, view: TimingView) -> (r: Option<u64>)
    ensures
        r == match context {
            Some(c) => if c.view_id == Some(view.view_id) && c.mode == view.mode && c.scale_bits
                == view.scale_bits && c.output_size == view.output_size {
                Some(c.epoch)
            } else {
                None
            },
            None => None,
        },
{
    match context {
        Some(c) => {
            let same_view = match c.view_id {
                Some(v) => v == view.view_id,
                None => false,
            };
            if same_view && c.mode == view.mode && c.scale_bits == view.scale_bits
                && c.output_size[0] == view.output_size[0] && c.output_size[1]
                == view.output_size[1] {
                proof {
                    assert(c.output_size == view.output_size);
                }
                Some(c.epoch)
            } else {
                None
            }
        },
        None => None,
    }
}

/// The status a completed harvest publishes: an accepted interval is
/// observed but unvalidated; a rejected one is a failure.
pub fn harvest_status(accepted: bool) -> (r: ExperimentalTimingStatus)
    ensures
        r == if accepted {
            ExperimentalTimingStatus::ObservedUnvalidated
        } else {
            ExperimentalTimingStatus::Failed
        },
{
    if accepted {
        ExperimentalTimingStatus::ObservedUnvalidated
    } else {
        ExperimentalTimingStatus::Failed
    }
}

/// Reason recorded when the device cannot write timestamps.
pub const REASON_NO_TIMESTAMPS: &'static str = "TIMESTAMP_QUERY not enabled on RenderDevice";

/// Reason recorded when not exactly one camera renders.
pub const REASON_CAMERA_COUNT: &'static str = "experimental timing supports exactly one active camera";

/// Reason recorded while the view's output is not yet prepared.
pub const REASON_OUTPUT_PENDING: &'static str = "view output not prepared";

/// Reason recorded when a marker cannot be drawn into the view's attachments.
pub const REASON_UNSUPPORTED_ATTACHMENT: &'static str = "unsupported marker attachment format or missing output";

/// Reason recorded when a frame and view already hold a slot.
pub const REASON_DUPLICATE: &'static str = "duplicate view/frame timing request";

/// Reason recorded when every slot is in flight.
pub const REASON_RING_FULL: &'static str = "query ring is full; sample skipped without waiting";

/// What a view's begin marker does.
#[derive(Debug, Clone, Copy, PartialEq, Eq)]
pub enum BeginStep {
    /// Encode nothing; record `status` with `reason`, counting a skipped
    /// sample when `dropped`.
    Stop { status: ExperimentalTimingStatus, reason: &'static str, dropped: bool },
    /// Encode the begin marker into the slot `slot` names.
    Encode(SlotChoice),
}

/// The begin marker's checks, in order: the device writes timestamps,
/// exactly one camera renders, the view's output is prepared, the main and
/// output attachments take a marker, the frame and view hold no slot yet,
/// and a slot is free or may be added.
pub open spec fn begin_step_spec(
    timestamp_queries: bool,
    single_camera: bool,
    output_prepared: bool,
    attachments_supported: bool,
    duplicate: bool,
    slot: SlotChoice,
) -> BeginStep {
    if !timestamp_queries {
        BeginStep::Stop {
            status: ExperimentalTimingStatus::Unavailable,
            reason: REASON_NO_TIMESTAMPS,
            dropped: false,
        }
    } else if !single_camera {
        BeginStep::Stop {
            status: ExperimentalTimingStatus::Unavailable,
            reason: REASON_CAMERA_COUNT,
            dropped: false,
        }
    } else if !output_prepared {
        BeginStep::Stop {
            status: ExperimentalTimingStatus::Pending,
            reason: REASON_OUTPUT_PENDING,
            dropped: false,
        }
    } else if !attachments_supported {
        BeginStep::Stop {
            status: ExperimentalTimingStatus::Unavailable,
            reason: REASON_UNSUPPORTED_ATTACHMENT,
            dropped: false,
        }
    } else if duplicate {
        BeginStep::Stop {
            status: ExperimentalTimingStatus::Failed,
            reason: REASON_DUPLICATE,
            dropped: true,
        }
    } else if slot is Full {
        BeginStep::Stop {
            status: ExperimentalTimingStatus::Pending,
            reason: REASON_RING_FULL,
            dropped: true,
        }
    } else {
        BeginStep::Encode(slot)
    }
}

/// Decide a view's begin marker from its checks.
pub fn begin_step(
    timestamp_queries: bool,
    single_camera: bool,
    output_prepared: bool,
    attachments_supported: bool,
    duplicate: bool,
    slot: SlotChoice,
) -> (r: BeginStep)
    ensures
        r == begin_step_spec(
            timestamp_queries,
            single_camera,
            output_prepared,
            attachments_supported,
            duplicate,
            slot,
        ),
        r matches BeginStep::Encode(s) ==> s == slot && !(slot is Full) && timestamp_queries
            && single_camera && output_prepared && attachments_supported && !duplicate,
        r matches BeginStep::Stop { dropped, .. } ==> (dropped <==> (timestamp_queries
            && single_camera && output_prepared && attachments_supported)),
{
    if !timestamp_queries {
        BeginStep::Stop {
            status: ExperimentalTimingStatus::Unavailable,
            reason: REASON_NO_TIMESTAMPS,
            dropped: false,
        }
    } else if !single_camera {
        BeginStep::Stop {
            status: ExperimentalTimingStatus::Unavailable,
            reason: REASON_CAMERA_COUNT,
            dropped: false,
        }
    } else if !output_prepared {
        BeginStep::Stop {
            status: ExperimentalTimingStatus::Pending,
            reason: REASON_OUTPUT_PENDING,
            dropped: false,
        }
    } else if !attachments_supported {
        BeginStep::Stop {
            status: ExperimentalTimingStatus::Unavailable,
            reason: REASON_UNSUPPORTED_ATTACHMENT,
            dropped: false,
        }
    } else if duplicate {
        BeginStep::Stop {
            status: ExperimentalTimingStatus::Failed,
            reason: REASON_DUPLICATE,
            dropped: true,
        }
    } else {
        match slot {
            SlotChoice::Full => BeginStep::Stop {
                status: ExperimentalTimingStatus::Pending,
                reason: REASON_RING_FULL,
                dropped: true,
            },
            _ => BeginStep::Encode(slot),
        }
    }
}

/// Every completed readback releases its slot, whether the mapping
/// succeeded or not, so a slot is never lost to a finished query; starting
/// to map moves a slot to `Mapping`; waiting and an overdue report leave it
/// where it was.
pub proof fn law_completion_always_releases_the_slot(phase: SlotPhase, mapped: bool)
    ensures
        phase_after(phase, HarvestAction::Complete { mapped }) == SlotPhase::Idle,
        phase_after(phase, HarvestAction::StartMapping) == SlotPhase::Mapping,
        phase_after(phase, HarvestAction::Wait) == phase,
        phase_after(phase, HarvestAction::Overdue) == phase,
{
}

} // verus!
