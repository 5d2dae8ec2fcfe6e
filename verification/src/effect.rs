//! Per-view observations of what MetalFX actually encoded.
//!
//! The render path publishes a new observation at each decision, including
//! pending and fallback decisions, and readers supply the frame they want to
//! inspect. A previous frame's successful output never counts as current
//! output.
//!
//! This is CPU-side evidence of encoded commands. Neither
//! [`MetalFxEffectState::Encoded`] nor [`MetalFxEffectState::OutputWritten`]
//! proves GPU completion, successful presentation, or that an image reached
//! the display.
//!
//! Times are nanoseconds on one process-wide monotonic clock; render scales
//! are carried as the bit pattern of the `f32` the application requested.

use crate::mode::MetalFxMode;
use std::collections::BTreeMap;
use vstd::prelude::*;
use vstd::std_specs::btree::spec_btree_map_iter;
use vstd::std_specs::iter::IteratorSpec;

verus! {

broadcast use vstd::std_specs::btree::group_btree_axioms;

/// How far this view's MetalFX work progressed in the observed frame.
#[derive(Debug, Clone, Copy, PartialEq, Eq, Structural)]
pub enum MetalFxEffectState {
    /// MetalFX was explicitly disabled.
    Disabled,
    /// The requested effect cannot run on this platform or configuration.
    Unavailable,
    /// No render-path observation exists for the requested frame and view.
    NoRender,
    /// Required scaler or pipeline preparation has not finished.
    Pending,
    /// Preparation or encoding failed; the reason identifies the known cause.
    Failed,
    /// The MetalFX pass was encoded, but its output was not yet copied to the view.
    Encoded,
    /// Commands to copy MetalFX output to the view target were encoded.
    /// This does not mean those commands have completed on the GPU.
    OutputWritten,
}

/// A diagnosed reason for a fallback, delay, or failure.
#[derive(Debug, Clone, Copy, PartialEq, Eq, Structural)]
pub enum MetalFxEffectReason {
    /// Background scaler creation has not completed.
    ScalerPending,
    /// Scaler creation has exceeded the diagnostic wait threshold; still waiting.
    ScalerCreationSlow,
    /// Scaler creation returned no usable scaler.
    ScalerCreationFailed,
    /// A required texture format is unsupported.
    UnsupportedFormat,
    /// Depth or motion-vector inputs needed for temporal work are absent.
    MissingPrepass,
    /// A raw Metal device, texture, or command-buffer handle was unavailable.
    MetalHandleUnavailable,
    /// The pipeline that copies output to the view is still compiling.
    BlitPipelinePending,
    /// Compilation of the pipeline that copies output to the view failed.
    BlitPipelineFailed,
    /// This operating system cannot run MetalFX.
    UnsupportedPlatform,
    /// The MetalFX framework is unavailable at runtime.
    FrameworkUnavailable,
    /// The requested mode is disabled.
    ModeDisabled,
    /// The requested mode was not compiled into this build.
    FeatureUnavailable,
    /// No eligible render view ran in this frame.
    NoRenderView,
    /// Encoding was skipped but no more specific diagnosis is available.
    EncodeSkipped,
    /// The view has no output target or output format.
    MissingOutput,
    /// A required texture or content dimension is invalid.
    InvalidDimensions,
    /// The renderer has one scaler/history cache and cannot isolate multiple views.
    MultipleViewsUnsupported,
    /// A subrectangle or offset viewport is not supported by the effect's copy path.
    UnsupportedViewport,
}

/// One view's render-path decision, captured before publishing it.
///
/// Construct a new observation for every decision; copying an old observation
/// preserves its ordering identity and timestamp. Frame IDs must increase
/// monotonically for the lifetime of a registry. Sizes are physical pixels;
/// `[0, 0]` means the corresponding size has not been observed.
#[derive(Debug, Clone, Copy, PartialEq, Eq)]
pub struct MetalFxEffectObservation {
    /// Application frame ID, extended across any native counter wraparound.
    pub frame_id: u64,
    /// Stable view identity, normally Bevy's entity bits including generation.
    pub view_id: u64,
    /// Mode requested by the application.
    pub requested_mode: MetalFxMode,
    /// Mode selected by the render path; this alone does not prove encoding.
    pub effective_mode: MetalFxMode,
    /// Bit pattern of the `f32` render scale requested for this frame.
    pub requested_scale_bits: u32,
    /// Observed input content dimensions, in physical pixels.
    pub content_size: [u32; 2],
    /// Observed output dimensions, in physical pixels.
    pub output_size: [u32; 2],
    /// Stage actually observed, independent of the configured mode.
    pub state: MetalFxEffectState,
    /// Known reason for the observed state or mode fallback.
    pub reason: Option<MetalFxEffectReason>,
    /// Monotonic time of the decision, rather than of its publication.
    pub observed_at: u64,
    /// Creation-order identity that breaks equal clock timestamps without
    /// allowing delayed publications to undo a later decision from the same
    /// frame. Copies keep this identity.
    pub sequence: u64,
}

/// Whether observation `a` was decided strictly before observation `b`:
/// frames first, then decision time, then creation order.
pub open spec fn precedes(a: MetalFxEffectObservation, b: MetalFxEffectObservation) -> bool {
    ||| a.frame_id < b.frame_id
    ||| (a.frame_id == b.frame_id && a.observed_at < b.observed_at)
    ||| (a.frame_id == b.frame_id && a.observed_at == b.observed_at && a.order_sequence()
        < b.order_sequence())
}

/// Whether two observations carry the same ordering identity.
pub open spec fn same_order(a: MetalFxEffectObservation, b: MetalFxEffectObservation) -> bool {
    &&& a.frame_id == b.frame_id
    &&& a.observed_at == b.observed_at
    &&& a.order_sequence() == b.order_sequence()
}

impl MetalFxEffectObservation {
    /// The creation-order identity that breaks equal timestamps.
    pub open spec fn order_sequence(self) -> u64 {
        self.sequence
    }

    /// Capture a render-path decision made at monotonic time `observed_at`
    /// with the creation-order identity `sequence`.
    #[allow(clippy::too_many_arguments)]
    pub fn new(
        frame_id: u64,
        view_id: u64,
        requested_mode: MetalFxMode,
        effective_mode: MetalFxMode,
        requested_scale_bits: u32,
        content_size: [u32; 2],
        output_size: [u32; 2],
        state: MetalFxEffectState,
        reason: Option<MetalFxEffectReason>,
        observed_at: u64,
        sequence: u64,
    ) -> (r: Self)
        ensures
            r.frame_id == frame_id,
            r.view_id == view_id,
            r.requested_mode == requested_mode,
            r.effective_mode == effective_mode,
            r.requested_scale_bits == requested_scale_bits,
            r.content_size == content_size,
            r.output_size == output_size,
            r.state == state,
            r.reason == reason,
            r.observed_at == observed_at,
            r.order_sequence() == sequence,
    {
        MetalFxEffectObservation {
            frame_id,
            view_id,
            requested_mode,
            effective_mode,
            requested_scale_bits,
            content_size,
            output_size,
            state,
            reason,
            observed_at,
            sequence,
        }
    }

    /// The creation-order identity of this decision.
    pub fn sequence(&self) -> (r: u64)
        ensures
            r == self.order_sequence(),
    {
        self.sequence
    }

    /// Whether this decision was made strictly before `other`.
    pub fn is_before(&self, other: &Self) -> (r: bool)
        ensures
            r == precedes(*self, *other),
    {
        self.frame_id < other.frame_id || (self.frame_id == other.frame_id && (self.observed_at
            < other.observed_at || (self.observed_at == other.observed_at && self.sequence
            < other.sequence)))
    }
}

/// Frame relationship between a retained observation and a reader's frame.
/// Wall-clock freshness is checked separately by [`MetalFxEffectSnapshot::is_fresh`].
#[derive(Debug, Clone, Copy, PartialEq, Eq, Structural)]
pub enum MetalFxEffectFreshness {
    /// The observation belongs to the requested frame.
    Current,
    /// The view last published in an earlier frame.
    Stale { age_frames: u64 },
    /// The reader requested an earlier frame than the retained observation.
    Future { ahead_frames: u64 },
    /// No observation is retained for this view, including after eviction.
    NeverObserved,
}

/// The frame relationship of `last` to a reader's `frame_id`.
pub open spec fn freshness_of(
    frame_id: u64,
    last: Option<MetalFxEffectObservation>,
) -> MetalFxEffectFreshness {
    match last {
        None => MetalFxEffectFreshness::NeverObserved,
        Some(o) => if o.frame_id < frame_id {
            MetalFxEffectFreshness::Stale { age_frames: (frame_id - o.frame_id) as u64 }
        } else if o.frame_id > frame_id {
            MetalFxEffectFreshness::Future { ahead_frames: (o.frame_id - frame_id) as u64 }
        } else {
            MetalFxEffectFreshness::Current
        },
    }
}

/// A view's observation interpreted relative to a specific frame.
#[derive(Debug, Clone, Copy, PartialEq, Eq)]
pub struct MetalFxEffectSnapshot {
    /// Frame requested by the reader.
    pub frame_id: u64,
    /// View requested by the reader.
    pub view_id: u64,
    /// Explicit relationship to the retained observation's frame.
    pub freshness: MetalFxEffectFreshness,
    /// Retained evidence for diagnostics, which may belong to an older frame.
    /// Use [`Self::state`] for strict current-frame status or [`Self::is_fresh`]
    /// before deliberately accepting a bounded render-pipeline delay.
    pub last_observation: Option<MetalFxEffectObservation>,
}

/// The snapshot a reader of `view_id` at `frame_id` receives for `last`.
pub open spec fn snapshot_of(
    view_id: u64,
    frame_id: u64,
    last: Option<MetalFxEffectObservation>,
) -> MetalFxEffectSnapshot {
    MetalFxEffectSnapshot {
        frame_id,
        view_id,
        freshness: freshness_of(frame_id, last),
        last_observation: last,
    }
}

impl MetalFxEffectSnapshot {
    /// The strict state: the observation's state when it belongs to the
    /// requested frame, otherwise `NoRender`.
    pub open spec fn current_state(self) -> MetalFxEffectState {
        match (self.freshness, self.last_observation) {
            (MetalFxEffectFreshness::Current, Some(o)) => o.state,
            _ => MetalFxEffectState::NoRender,
        }
    }

    /// Elapsed frames, or `None` for a missing or future observation.
    pub open spec fn frame_age(self) -> Option<u64> {
        match self.freshness {
            MetalFxEffectFreshness::Current => Some(0),
            MetalFxEffectFreshness::Stale { age_frames } => Some(age_frames),
            _ => None,
        }
    }

    /// Time since the observation at monotonic time `now`, or `None` when
    /// there is no observation or it lies in the future of `now`.
    pub open spec fn age_at(self, now: u64) -> Option<u64> {
        match self.last_observation {
            None => None,
            Some(o) => if o.observed_at <= now {
                Some((now - o.observed_at) as u64)
            } else {
                None
            },
        }
    }

    /// Within both freshness bounds at monotonic time `now`: at most
    /// `max_age_frames` frames old and at most `max_wall_age` old.
    pub open spec fn fresh_at(self, max_age_frames: u64, max_wall_age: u64, now: u64) -> bool {
        &&& self.frame_age() matches Some(age) && age <= max_age_frames
        &&& self.age_at(now) matches Some(age) && age <= max_wall_age
    }

    /// Interpret `last_observation` relative to `frame_id` for `view_id`.
    pub fn from_observation(
        view_id: u64,
        frame_id: u64,
        last_observation: Option<MetalFxEffectObservation>,
    ) -> (r: Self)
        ensures
            r == snapshot_of(view_id, frame_id, last_observation),
    {
        let freshness = match last_observation {
            None => MetalFxEffectFreshness::NeverObserved,
            Some(observation) => if observation.frame_id < frame_id {
                MetalFxEffectFreshness::Stale { age_frames: frame_id - observation.frame_id }
            } else if observation.frame_id > frame_id {
                MetalFxEffectFreshness::Future { ahead_frames: observation.frame_id - frame_id }
            } else {
                MetalFxEffectFreshness::Current
            },
        };
        MetalFxEffectSnapshot { frame_id, view_id, freshness, last_observation }
    }

    /// The current frame's state, or `NoRender` if no current observation exists.
    /// This checks frame identity; use [`Self::is_fresh`] to also bound wall age.
    pub fn state(&self) -> (r: MetalFxEffectState)
        ensures
            r == self.current_state(),
    {
        match (self.freshness, self.last_observation) {
            (MetalFxEffectFreshness::Current, Some(observation)) => observation.state,
            _ => MetalFxEffectState::NoRender,
        }
    }

    /// Number of elapsed frames, or `None` for missing/future observations.
    pub fn age_frames(&self) -> (r: Option<u64>)
        ensures
            r == self.frame_age(),
    {
        match self.freshness {
            MetalFxEffectFreshness::Current => Some(0),
            MetalFxEffectFreshness::Stale { age_frames } => Some(age_frames),
            _ => None,
        }
    }

    /// Time since the observation, evaluated at monotonic time `now`.
    /// `None` means there is no observation or its timestamp is after `now`.
    pub fn wall_age(&self, now: u64) -> (r: Option<u64>)
        ensures
            r == self.age_at(now),
    {
        match self.last_observation {
            None => None,
            Some(observation) => if observation.observed_at <= now {
                Some(now - observation.observed_at)
            } else {
                None
            },
        }
    }

    /// Accept an observation only within both caller-chosen freshness bounds,
    /// judged at monotonic time `now`. A fresh observation can still report
    /// pending, unavailable, or failed; inspect its state before treating the
    /// effect as active.
    pub fn is_fresh(&self, max_age_frames: u64, max_wall_age: u64, now: u64) -> (r: bool)
        ensures
            r == self.fresh_at(max_age_frames, max_wall_age, now),
    {
        let frames_ok = match self.age_frames() {
            Some(age) => age <= max_age_frames,
            None => false,
        };
        let wall_ok = match self.wall_age(now) {
            Some(age) => age <= max_wall_age,
            None => false,
        };
        frames_ok && wall_ok
    }
}

/// Whether `k` names the retained observation decided earliest, the first
/// such view in view-ID order when several share an ordering identity.
pub open spec fn is_oldest(m: Map<u64, MetalFxEffectObservation>, k: u64) -> bool {
    &&& m.contains_key(k)
    &&& forall|k2: u64| #[trigger]
        m.contains_key(k2) ==> !precedes(m[k2], m[k]) && (same_order(m[k2], m[k]) ==> k <= k2)
}

/// The view whose observation an eviction replaces.
pub open spec fn oldest_view(m: Map<u64, MetalFxEffectObservation>) -> u64 {
    choose|k: u64| is_oldest(m, k)
}

/// At most one view is the oldest.
pub proof fn lemma_oldest_unique(m: Map<u64, MetalFxEffectObservation>, a: u64, b: u64)
    requires
        is_oldest(m, a),
        is_oldest(m, b),
    ensures
        a == b,
{
    assert(!precedes(m[a], m[b]));
    assert(!precedes(m[b], m[a]));
    assert(same_order(m[a], m[b]));
    assert(a <= b);
    assert(b <= a);
}

/// What publishing `observation` into the retained map `m` does: the
/// result `r` and the map `m2` afterwards.
///
/// A known view accepts only a strictly later decision. A new view is
/// admitted while there is room; at capacity it replaces the oldest retained
/// observation, and only when it is later than that observation. A refused
/// publication changes nothing.
pub open spec fn publish_outcome(
    m: Map<u64, MetalFxEffectObservation>,
    observation: MetalFxEffectObservation,
    r: bool,
    m2: Map<u64, MetalFxEffectObservation>,
) -> bool {
    let v = observation.view_id;
    &&& m.contains_key(v) ==> (r <==> precedes(m[v], observation))
    &&& !m.contains_key(v) && m.len() < MAX_EFFECT_VIEWS ==> r
    &&& !m.contains_key(v) && m.len() >= MAX_EFFECT_VIEWS ==> (r <==> precedes(
        m[oldest_view(m)],
        observation,
    ))
    &&& r && (m.contains_key(v) || m.len() < MAX_EFFECT_VIEWS) ==> m2 == m.insert(v, observation)
    &&& r && !m.contains_key(v) && m.len() >= MAX_EFFECT_VIEWS ==> m2 == m.remove(
        oldest_view(m),
    ).insert(v, observation)
    &&& !r ==> m2 == m
}

/// Shared, bounded registry of the latest observation for each render view.
/// Each retained view keeps exactly one observation.
#[derive(Debug, Clone)]
pub struct EffectRegistry {
    observations: BTreeMap<u64, MetalFxEffectObservation>,
}

/// Maximum retained views of an [`EffectRegistry`].
pub const MAX_EFFECT_VIEWS: usize = 64;

impl EffectRegistry {
    /// Retained observations, by view.
    pub closed spec fn view(&self) -> Map<u64, MetalFxEffectObservation> {
        self.observations@
    }

    /// Every observation is filed under its own view, and at most
    /// [`MAX_EFFECT_VIEWS`] are retained.
    pub open spec fn well_formed(&self) -> bool {
        &&& self.view().dom().finite()
        &&& self.view().len() <= MAX_EFFECT_VIEWS
        &&& forall|k: u64| #[trigger] self.view().contains_key(k) ==> self.view()[k].view_id == k
    }

    /// An empty registry.
    pub fn new() -> (r: Self)
        ensures
            r.well_formed(),
            r.view() == Map::<u64, MetalFxEffectObservation>::empty(),
    {
        EffectRegistry { observations: BTreeMap::new() }
    }

    /// Number of retained views.
    pub fn len(&self) -> (r: usize)
        requires
            self.well_formed(),
        ensures
            r == self.view().len(),
    {
        self.observations.len()
    }

    /// Find the oldest retained observation, as [`is_oldest`] defines it.
    fn oldest(&self) -> (r: (u64, MetalFxEffectObservation))
        requires
            self.well_formed(),
            self.view().len() > 0,
        ensures
            is_oldest(self.view(), r.0),
            r.1 == self.view()[r.0],
    {
        let m = &self.observations;
        let mut best: Option<(u64, MetalFxEffectObservation)> = None;
        let ghost mut best_pos: int = 0;
        for (k, o) in it: m.iter()
            invariant
                it.seq() == spec_btree_map_iter(m).remaining(),
                best is None <==> it.index() == 0,
                best matches Some(b) ==> {
                    &&& 0 <= best_pos < it.index()
                    &&& *it.seq()[best_pos].0 == b.0
                    &&& *it.seq()[best_pos].1 == b.1
                    &&& m@.contains_key(b.0)
                    &&& m@[b.0] == b.1
                    &&& forall|i: int|
                        0 <= i < it.index() ==> {
                            &&& !precedes(*(#[trigger] it.seq()[i]).1, b.1)
                            &&& same_order(*it.seq()[i].1, b.1) ==> best_pos <= i
                        }
                },
        {
            proof {
                let keys = it.seq().map_values(|kv: (&u64, &MetalFxEffectObservation)| *kv.0);
                assert(keys[it.index() as int] == *k);
            }
            match best {
                None => {
                    best = Some((*k, *o));
                    proof {
                        best_pos = it.index() as int;
                    }
                },
                Some(b) => {
                    if o.is_before(&b.1) {
                        best = Some((*k, *o));
                        proof {
                            best_pos = it.index() as int;
                        }
                    }
                },
            }
        }
        let b = best.unwrap();
        proof {
            let s = spec_btree_map_iter(m).remaining();
            let keys = s.map_values(|kv: (&u64, &MetalFxEffectObservation)| *kv.0);
            assert forall|k2: u64| #[trigger]
                m@.contains_key(k2) implies !precedes(m@[k2], m@[b.0]) && (same_order(
                m@[k2],
                m@[b.0],
            ) ==> b.0 <= k2) by {
                assert(s.contains((&k2, &m@[k2])));
                let i = choose|i: int| 0 <= i < s.len() && s[i] == (&k2, &m@[k2]);
                assert(keys[i] == k2);
                assert(keys[best_pos] == b.0);
                if same_order(m@[k2], m@[b.0]) {
                    assert(best_pos <= i);
                    if best_pos < i {
                        crate::key_order::lemma_increasing_keys(keys, best_pos, i);
                    }
                }
            }
        }
        b
    }

    /// Publish a decision, returning `false` if a later decision already
    /// exists. Decisions are ordered by frame, observation time, then creation
    /// identity. At capacity, a new view replaces the oldest observation only
    /// if it is newer than that observation.
    pub fn publish(&mut self, observation: MetalFxEffectObservation) -> (r: bool)
        requires
            old(self).well_formed(),
        ensures
            final(self).well_formed(),
            publish_outcome(old(self).view(), observation, r, final(self).view()),
    {
        let ghost m = self.observations@;
        let v = observation.view_id;
        match self.observations.get(&v) {
            Some(previous) => {
                if !previous.is_before(&observation) {
                    return false;
                }
            },
            None => {
                if self.observations.len() >= MAX_EFFECT_VIEWS {
                    let (oldest_view_id, oldest) = self.oldest();
                    proof {
                        lemma_oldest_unique(m, oldest_view_id, oldest_view(m));
                    }
                    if !oldest.is_before(&observation) {
                        return false;
                    }
                    self.observations.remove(&oldest_view_id);
                    proof {
                        assert(self.observations@ == m.remove(oldest_view_id));
                        assert(self.observations@.len() == m.len() - 1);
                    }
                }
            },
        }
        self.observations.insert(v, observation);
        proof {
            assert(self.observations@.dom().finite());
        }
        true
    }

    /// Read one view; an absent or evicted view explicitly reports `NoRender`.
    pub fn snapshot(&self, view_id: u64, current_frame: u64) -> (r: MetalFxEffectSnapshot)
        requires
            self.well_formed(),
        ensures
            r == snapshot_of(
                view_id,
                current_frame,
                if self.view().contains_key(view_id) {
                    Some(self.view()[view_id])
                } else {
                    None
                },
            ),
    {
        let last = match self.observations.get(&view_id) {
            Some(observation) => Some(*observation),
            None => None,
        };
        MetalFxEffectSnapshot::from_observation(view_id, current_frame, last)
    }

    /// Read all retained views in ascending view-ID order, including stale views.
    pub fn snapshots(&self, current_frame: u64) -> (r: Vec<MetalFxEffectSnapshot>)
        requires
            self.well_formed(),
        ensures
            r@.len() == self.view().len(),
            forall|i: int|
                0 <= i < r@.len() ==> self.view().contains_key(#[trigger] r@[i].view_id) && r@[i]
                    == snapshot_of(r@[i].view_id, current_frame, Some(self.view()[r@[i].view_id])),
            forall|i: int, j: int| 0 <= i < j < r@.len() ==> r@[i].view_id < r@[j].view_id,
    {
        let m = &self.observations;
        let mut out: Vec<MetalFxEffectSnapshot> = Vec::new();
        for (k, o) in it: m.iter()
            invariant
                it.seq() == spec_btree_map_iter(m).remaining(),
                self.well_formed(),
                m == &self.observations,
                out@.len() == it.index(),
                forall|i: int|
                    0 <= i < it.index() ==> (#[trigger] out@[i]).view_id == *it.seq()[i].0
                        && m@.contains_key(out@[i].view_id) && out@[i] == snapshot_of(
                        out@[i].view_id,
                        current_frame,
                        Some(m@[out@[i].view_id]),
                    ),
        {
            proof {
                assert(m@.contains_key(*k));
                assert(m@[*k] == *o);
            }
            out.push(MetalFxEffectSnapshot::from_observation(*k, current_frame, Some(*o)));
        }
        proof {
            let s = spec_btree_map_iter(m).remaining();
            let keys = s.map_values(|kv: (&u64, &MetalFxEffectObservation)| *kv.0);
            assert forall|i: int, j: int| 0 <= i < j < out@.len() implies out@[i].view_id
                < out@[j].view_id by {
                assert(keys[i] == *s[i].0);
                assert(keys[j] == *s[j].0);
                crate::key_order::lemma_increasing_keys(keys, i, j);
            }
        }
        out
    }
}

/// A publication that was accepted is what a reader of that view and frame
/// sees next: read-after-write.
pub proof fn law_accepted_publication_is_read_back(
    m: Map<u64, MetalFxEffectObservation>,
    observation: MetalFxEffectObservation,
    m2: Map<u64, MetalFxEffectObservation>,
)
    requires
        publish_outcome(m, observation, true, m2),
    ensures
        m2.contains_key(observation.view_id),
        m2[observation.view_id] == observation,
        snapshot_of(
            observation.view_id,
            observation.frame_id,
            Some(m2[observation.view_id]),
        ).current_state() == observation.state,
{
}

/// A delayed decision, from an earlier frame or earlier within the same
/// frame, cannot replace a later one: it is refused and nothing changes.
pub proof fn law_delayed_publication_is_refused(
    m: Map<u64, MetalFxEffectObservation>,
    observation: MetalFxEffectObservation,
    r: bool,
    m2: Map<u64, MetalFxEffectObservation>,
)
    requires
        publish_outcome(m, observation, r, m2),
        m.contains_key(observation.view_id),
        !precedes(m[observation.view_id], observation),
    ensures
        !r,
        m2 == m,
{
}

/// Every view's retained observation only moves forward in decision order;
/// publishing one view never alters another view's observation.
pub proof fn law_retained_observations_never_regress(
    m: Map<u64, MetalFxEffectObservation>,
    observation: MetalFxEffectObservation,
    r: bool,
    m2: Map<u64, MetalFxEffectObservation>,
    view: u64,
)
    requires
        publish_outcome(m, observation, r, m2),
        m.contains_key(view),
        m2.contains_key(view),
    ensures
        m2[view] == m[view] || (view == observation.view_id && precedes(m[view], m2[view])),
{
}

/// The registry stays bounded: a publication adds at most one view, and
/// only while there is room or by evicting the oldest.
pub proof fn law_registry_stays_bounded(
    m: Map<u64, MetalFxEffectObservation>,
    observation: MetalFxEffectObservation,
    r: bool,
    m2: Map<u64, MetalFxEffectObservation>,
)
    requires
        m.dom().finite(),
        m.len() <= MAX_EFFECT_VIEWS,
        publish_outcome(m, observation, r, m2),
    ensures
        m2.len() <= MAX_EFFECT_VIEWS,
{
    let v = observation.view_id;
    if r && !m.contains_key(v) && m.len() >= MAX_EFFECT_VIEWS {
        let k = oldest_view(m);
        assert(m.len() > 0);
        assert(m.dom().contains(m.dom().choose()));
        lemma_oldest_exists(m);
        assert(m.remove(k).len() == m.len() - 1);
    }
}

/// A finite, nonempty map has an oldest view.
pub proof fn lemma_oldest_exists(m: Map<u64, MetalFxEffectObservation>)
    requires
        m.dom().finite(),
        m.len() > 0,
    ensures
        is_oldest(m, oldest_view(m)),
    decreases m.len(),
{
    let k = m.dom().choose();
    assert(m.dom().contains(k));
    let rest = m.remove(k);
    if rest.len() == 0 {
        assert forall|k2: u64| #[trigger] m.contains_key(k2) implies !precedes(m[k2], m[k]) && (
        same_order(m[k2], m[k]) ==> k <= k2) by {
            if k2 != k {
                assert(rest.contains_key(k2));
            }
        }
        assert(is_oldest(m, k));
    } else {
        lemma_oldest_exists(rest);
        let j = oldest_view(rest);
        if precedes(m[k], m[j]) || (same_order(m[k], m[j]) && k < j) {
            assert forall|k2: u64| #[trigger] m.contains_key(k2) implies !precedes(m[k2], m[k]) && (
            same_order(m[k2], m[k]) ==> k <= k2) by {
                if k2 != k {
                    assert(rest.contains_key(k2));
                }
            }
            assert(is_oldest(m, k));
        } else {
            assert forall|k2: u64| #[trigger] m.contains_key(k2) implies !precedes(m[k2], m[j]) && (
            same_order(m[k2], m[j]) ==> j <= k2) by {
                if k2 != k {
                    assert(rest.contains_key(k2));
                }
            }
            assert(is_oldest(m, j));
        }
    }
}

/// A previous frame's decision never counts as the current state: a
/// snapshot reports a state other than `NoRender` only for an observation
/// of exactly the requested frame.
pub proof fn law_only_the_requested_frame_reports_state(
    view_id: u64,
    frame_id: u64,
    last: Option<MetalFxEffectObservation>,
)
    requires
        snapshot_of(view_id, frame_id, last).current_state() != MetalFxEffectState::NoRender,
    ensures
        last is Some,
        last->0.frame_id == frame_id,
        snapshot_of(view_id, frame_id, last).current_state() == last->0.state,
{
}

impl Default for EffectRegistry {
    fn default() -> (r: Self)
        ensures
            r.well_formed(),
            r.view() == Map::<u64, MetalFxEffectObservation>::empty(),
    {
        EffectRegistry::new()
    }
}

} // verus!
