//! Decisions of the adaptive-resolution adapter that do not depend on the
//! floating-point policy: which view drives adaptation, when old evidence is
//! invalidated by a new measurement epoch, and whether a delivered cost
//! sample belongs to the current epoch and frame window.
//!
//! No GPU measurement is installed by default. App cadence, virtual time and
//! the MetalFX command-buffer interval are never substituted for frame cost.

use crate::adaptive::{AdaptiveConfigError, AdaptiveReason};
use crate::effect::{MetalFxEffectSnapshot, MetalFxEffectState};
use crate::adaptive::cleared;
use crate::governor::{rejection, AdaptiveGovernor, GovernorObservation, GovernorView};
use crate::mode::MetalFxMode;
use vstd::prelude::*;

verus! {

/// Why the adaptive adapter held the scale, or the controller's own reason.
#[derive(Clone, Copy, Debug, PartialEq, Eq, Structural)]
pub enum MetalFxAdaptiveReason {
    Disabled,
    InvalidConfiguration(AdaptiveConfigError),
    NoRenderView,
    MultipleViewsUnsupported,
    UnsupportedTarget,
    UnsupportedViewport,
    EffectStale,
    EffectNotReady(MetalFxEffectState),
    EffectConfigurationMismatch,
    TimingUnavailable,
    SampleEpochMismatch,
    SampleFrameMismatch,
    Controller(AdaptiveReason),
}

/// The identity of the view adaptation is measuring.
#[derive(Clone, Copy, Debug, PartialEq, Eq)]
pub struct ViewFingerprint {
    pub view_id: u64,
    pub window_id: u64,
    pub output_size: [u32; 2],
}

/// Where an active 3D camera renders.
#[derive(Clone, Copy, Debug, PartialEq, Eq, Structural)]
pub enum CameraTarget {
    /// A window named by its entity bits.
    Window(u64),
    /// The primary window.
    PrimaryWindow,
    /// An image or other non-window target.
    Other,
}

/// An active 3D camera: its entity bits, its viewport `(position, size)` if
/// it sets one, and its render target.
#[derive(Clone, Copy, Debug, PartialEq, Eq)]
pub struct ActiveCamera {
    pub entity: u64,
    pub viewport: Option<([u32; 2], [u32; 2])>,
    pub target: CameraTarget,
}

/// The camera and window adaptation would measure, or why there is none.
/// One active camera is required; a configured primary view must be that
/// camera; the target must be a window, the primary one only when exactly
/// one primary window exists (`primary_window`).
pub open spec fn camera_choice(
    active: Seq<ActiveCamera>,
    primary_view: Option<u64>,
    primary_window: Option<u64>,
) -> Result<(ActiveCamera, u64), MetalFxAdaptiveReason> {
    if active.len() > 1 {
        Err(MetalFxAdaptiveReason::MultipleViewsUnsupported)
    } else if active.len() == 0 {
        Err(MetalFxAdaptiveReason::NoRenderView)
    } else if primary_view matches Some(p) && p != active[0].entity {
        Err(MetalFxAdaptiveReason::NoRenderView)
    } else {
        match active[0].target {
            CameraTarget::Window(w) => Ok((active[0], w)),
            CameraTarget::PrimaryWindow => match primary_window {
                Some(w) => Ok((active[0], w)),
                None => Err(MetalFxAdaptiveReason::UnsupportedTarget),
            },
            CameraTarget::Other => Err(MetalFxAdaptiveReason::UnsupportedTarget),
        }
    }
}

/// Pick the camera and window adaptation measures.
pub fn select_camera(
    active: &Vec<ActiveCamera>,
    primary_view: Option<u64>,
    primary_window: Option<u64>,
) -> (r: Result<(ActiveCamera, u64), MetalFxAdaptiveReason>)
    ensures
        r == camera_choice(active@, primary_view, primary_window),
        r matches Ok((camera, window)) ==> active@.len() == 1 && camera == active@[0] && (
        primary_view matches Some(p) ==> p == camera.entity) && (camera.target
            == CameraTarget::Window(window) || (camera.target == CameraTarget::PrimaryWindow
            && primary_window == Some(window))),
{
    if active.len() > 1 {
        return Err(MetalFxAdaptiveReason::MultipleViewsUnsupported);
    }
    if active.len() == 0 {
        return Err(MetalFxAdaptiveReason::NoRenderView);
    }
    let camera = active[0];
    if let Some(p) = primary_view {
        if p != camera.entity {
            return Err(MetalFxAdaptiveReason::NoRenderView);
        }
    }
    match camera.target {
        CameraTarget::Window(w) => Ok((camera, w)),
        CameraTarget::PrimaryWindow => match primary_window {
            Some(w) => Ok((camera, w)),
            None => Err(MetalFxAdaptiveReason::UnsupportedTarget),
        },
        CameraTarget::Other => Err(MetalFxAdaptiveReason::UnsupportedTarget),
    }
}

/// The fingerprint of the chosen camera and window: the window must have a
/// nonzero physical size, and a viewport must cover exactly that window.
pub open spec fn fingerprint_of(
    camera: ActiveCamera,
    window: u64,
    window_size: Option<[u32; 2]>,
) -> Result<ViewFingerprint, MetalFxAdaptiveReason> {
    match window_size {
        None => Err(MetalFxAdaptiveReason::UnsupportedTarget),
        Some(size) => if size[0] == 0 || size[1] == 0 {
            Err(MetalFxAdaptiveReason::UnsupportedTarget)
        } else if camera.viewport matches Some((position, extent)) && (position[0] != 0
            || position[1] != 0 || extent[0] != size[0] || extent[1] != size[1]) {
            Err(MetalFxAdaptiveReason::UnsupportedViewport)
        } else {
            Ok(ViewFingerprint { view_id: camera.entity, window_id: window, output_size: size })
        },
    }
}

/// Complete the view selection once the window's physical size is known.
pub fn finish_view(camera: ActiveCamera, window: u64, window_size: Option<[u32; 2]>) -> (r: Result<
    ViewFingerprint,
    MetalFxAdaptiveReason,
>)
    ensures
        r == fingerprint_of(camera, window, window_size),
{
    let size = match window_size {
        None => return Err(MetalFxAdaptiveReason::UnsupportedTarget),
        Some(size) => size,
    };
    if size[0] == 0 || size[1] == 0 {
        return Err(MetalFxAdaptiveReason::UnsupportedTarget);
    }
    if let Some((position, extent)) = camera.viewport {
        if position[0] != 0 || position[1] != 0 || extent[0] != size[0] || extent[1] != size[1] {
            return Err(MetalFxAdaptiveReason::UnsupportedViewport);
        }
    }
    Ok(ViewFingerprint { view_id: camera.entity, window_id: window, output_size: size })
}

/// Why the latest sample `(epoch, frame)` of the measured view cannot
/// drive the controller: there is none, it belongs to another measurement
/// epoch, or its frame is in the future or older than the allowed lag.
pub open spec fn sample_hold(
    sample: Option<(u64, u64)>,
    epoch: u64,
    current_frame: u64,
    max_sample_age_frames: u64,
) -> Option<MetalFxAdaptiveReason> {
    match sample {
        None => Some(MetalFxAdaptiveReason::TimingUnavailable),
        Some((e, f)) => if e != epoch {
            Some(MetalFxAdaptiveReason::SampleEpochMismatch)
        } else if f > current_frame || current_frame - f > max_sample_age_frames {
            Some(MetalFxAdaptiveReason::SampleFrameMismatch)
        } else {
            None
        },
    }
}

/// Check the identity of the latest delivered sample.
pub fn sample_hold_reason(
    sample: Option<(u64, u64)>,
    epoch: u64,
    current_frame: u64,
    max_sample_age_frames: u64,
) -> (r: Option<MetalFxAdaptiveReason>)
    ensures
        r == sample_hold(sample, epoch, current_frame, max_sample_age_frames),
        r is None <==> (sample matches Some((e, f)) && e == epoch && f <= current_frame
            && current_frame - f <= max_sample_age_frames),
        sample matches Some((e, f)) && e != epoch ==> r == Some(
            MetalFxAdaptiveReason::SampleEpochMismatch,
        ),
{
    match sample {
        None => Some(MetalFxAdaptiveReason::TimingUnavailable),
        Some((e, f)) => if e != epoch {
            Some(MetalFxAdaptiveReason::SampleEpochMismatch)
        } else if f > current_frame || current_frame - f > max_sample_age_frames {
            Some(MetalFxAdaptiveReason::SampleFrameMismatch)
        } else {
            None
        },
    }
}

/// Why the measured view's effect cannot drive adaptation, judged at
/// monotonic time `now`: its observation is stale, its output was not
/// written, or it was produced under another configuration. The caller
/// compares the observation's requested scale with the active one
/// (`scale_matches`) and derives the content the active scale renders
/// (`expected_content`); the rest is compared here.
pub open spec fn effect_hold(
    snapshot: MetalFxEffectSnapshot,
    max_age_frames: u64,
    max_wall_age: u64,
    now: u64,
    mode: MetalFxMode,
    scale_matches: bool,
    output_size: [u32; 2],
    expected_content: [u32; 2],
) -> Option<MetalFxAdaptiveReason> {
    if !snapshot.fresh_at(max_age_frames, max_wall_age, now) {
        Some(MetalFxAdaptiveReason::EffectStale)
    } else {
        match snapshot.last_observation {
            None => Some(MetalFxAdaptiveReason::EffectStale),
            Some(o) => if o.state != MetalFxEffectState::OutputWritten {
                Some(MetalFxAdaptiveReason::EffectNotReady(o.state))
            } else if o.effective_mode != mode || !scale_matches || o.output_size != output_size
                || o.content_size != expected_content || o.content_size[0] == 0
                || o.content_size[1] == 0 {
                Some(MetalFxAdaptiveReason::EffectConfigurationMismatch)
            } else {
                None
            },
        }
    }
}

/// Check the measured view's effect before its cost may be used.
pub fn effect_hold_reason(
    snapshot: &MetalFxEffectSnapshot,
    max_age_frames: u64,
    max_wall_age: u64,
    now: u64,
    mode: MetalFxMode,
    scale_matches: bool,
    output_size: [u32; 2],
    expected_content: [u32; 2],
) -> (r: Option<MetalFxAdaptiveReason>)
    ensures
        r == effect_hold(
            *snapshot,
            max_age_frames,
            max_wall_age,
            now,
            mode,
            scale_matches,
            output_size,
            expected_content,
        ),
        r is None ==> snapshot.fresh_at(max_age_frames, max_wall_age, now) && (
        snapshot.last_observation matches Some(o) && o.state == MetalFxEffectState::OutputWritten
            && o.effective_mode == mode && scale_matches && o.output_size == output_size
            && o.content_size == expected_content && o.content_size[0] > 0 && o.content_size[1]
            > 0),
{
    if !snapshot.is_fresh(max_age_frames, max_wall_age, now) {
        return Some(MetalFxAdaptiveReason::EffectStale);
    }
    match snapshot.last_observation {
        None => Some(MetalFxAdaptiveReason::EffectStale),
        Some(o) => {
            if o.state != MetalFxEffectState::OutputWritten {
                Some(MetalFxAdaptiveReason::EffectNotReady(o.state))
            } else if o.effective_mode != mode || !scale_matches || o.output_size[0]
                != output_size[0] || o.output_size[1] != output_size[1] || o.content_size[0]
                != expected_content[0] || o.content_size[1] != expected_content[1]
                || o.content_size[0] == 0 || o.content_size[1] == 0 {
                Some(MetalFxAdaptiveReason::EffectConfigurationMismatch)
            } else {
                proof {
                    assert(o.output_size == output_size);
                    assert(o.content_size == expected_content);
                }
                None
            }
        },
    }
}

/// Start a new measurement epoch when a changed policy, measured view, mode
/// or explicit reset generation calls for one, and then reset the
/// controller's evidence, downward trial and no-benefit reference. The rung,
/// and so the render scale, is left as it was. Returns whether an epoch
/// started.
pub fn start_epoch_if_due(
    epochs: &mut AdaptiveEpochs,
    governor: &mut AdaptiveGovernor,
    config_changed: bool,
    fingerprint: Option<ViewFingerprint>,
    mode: MetalFxMode,
    reset_generation: u64,
) -> (r: bool)
    requires
        old(epochs).starts_epoch(config_changed, fingerprint, mode, reset_generation)
            ==> old(epochs).spec_epoch() < u64::MAX,
        old(governor).well_formed(),
    ensures
        r == old(epochs).starts_epoch(config_changed, fingerprint, mode, reset_generation),
        r <==> (config_changed || old(epochs).spec_fingerprint() != fingerprint
            || old(epochs).spec_mode() != Some(mode) || old(epochs).spec_reset_generation()
            != reset_generation),
        r ==> final(epochs).spec_epoch() == old(epochs).spec_epoch() + 1,
        r ==> final(epochs).spec_fingerprint() == fingerprint,
        r ==> final(epochs).spec_mode() == Some(mode),
        r ==> final(epochs).spec_reset_generation() == reset_generation,
        !r ==> *final(epochs) == *old(epochs),
        final(governor).well_formed(),
        r ==> final(governor).view() == (GovernorView {
            evidence: cleared(old(governor).view().evidence),
            trial_from: None,
            no_benefit: false,
            ..old(governor).view()
        }),
        !r ==> final(governor).view() == old(governor).view(),
        final(governor).view().index == old(governor).view().index,
{
    let started = epochs.on_active(config_changed, fingerprint, mode, reset_generation);
    if started {
        governor.reset();
    }
    started
}

/// Why an adaptive update holds the scale before consulting the controller,
/// and whether the measured view's effect is ready: the view selection's
/// reason, else the effect's hold reason (`effect_hold`, judged for the
/// selected view), else the hold reason of its latest sample.
pub open spec fn measured_hold_spec(
    selected: Result<ViewFingerprint, MetalFxAdaptiveReason>,
    effect_hold: Option<MetalFxAdaptiveReason>,
    sample: Option<(u64, u64)>,
    epoch: u64,
    current_frame: u64,
    max_sample_age_frames: u64,
) -> (Option<MetalFxAdaptiveReason>, bool) {
    match selected {
        Err(reason) => (Some(reason), false),
        Ok(_) => match effect_hold {
            Some(reason) => (Some(reason), false),
            None => (sample_hold(sample, epoch, current_frame, max_sample_age_frames), true),
        },
    }
}

/// Combine the view, effect and sample checks of an adaptive update.
pub fn measured_hold(
    selected: Result<ViewFingerprint, MetalFxAdaptiveReason>,
    effect_hold: Option<MetalFxAdaptiveReason>,
    sample: Option<(u64, u64)>,
    epoch: u64,
    current_frame: u64,
    max_sample_age_frames: u64,
) -> (r: (Option<MetalFxAdaptiveReason>, bool))
    ensures
        r == measured_hold_spec(
            selected,
            effect_hold,
            sample,
            epoch,
            current_frame,
            max_sample_age_frames,
        ),
{
    match selected {
        Err(reason) => (Some(reason), false),
        Ok(_) => match effect_hold {
            Some(reason) => (Some(reason), false),
            None => (sample_hold_reason(sample, epoch, current_frame, max_sample_age_frames), true),
        },
    }
}

/// The reason an adaptive update reports: its hold reason when it held the
/// scale; otherwise `InvalidSample` when the sample's time precedes the
/// controller's clock origin; otherwise the controller's own reason.
pub open spec fn update_reason_spec(
    hold: Option<MetalFxAdaptiveReason>,
    sample_time_valid: bool,
    controller: AdaptiveReason,
) -> MetalFxAdaptiveReason {
    match hold {
        Some(reason) => reason,
        None => if sample_time_valid {
            MetalFxAdaptiveReason::Controller(controller)
        } else {
            MetalFxAdaptiveReason::Controller(AdaptiveReason::InvalidSample)
        },
    }
}

/// Choose the reason an adaptive update reports.
pub fn update_reason(
    hold: Option<MetalFxAdaptiveReason>,
    sample_time_valid: bool,
    controller: AdaptiveReason,
) -> (r: MetalFxAdaptiveReason)
    ensures
        r == update_reason_spec(hold, sample_time_valid, controller),
{
    match hold {
        Some(reason) => reason,
        None => if sample_time_valid {
            MetalFxAdaptiveReason::Controller(controller)
        } else {
            MetalFxAdaptiveReason::Controller(AdaptiveReason::InvalidSample)
        },
    }
}

/// After a changed policy, view (a resize included), mode or explicit reset
/// has started a new epoch, a later update whose view is selected and whose
/// effect is fresh and ready, but whose latest sample carries the previous
/// epoch or an earlier one, is held and reports `SampleEpochMismatch`. Such
/// an update hands the controller no cost, and a delivery without a cost is
/// refused at intake, which never moves the rung: the render scale stays.
pub proof fn law_epoch_change_holds_old_samples(
    before: AdaptiveEpochs,
    after: AdaptiveEpochs,
    config_changed: bool,
    fingerprint: Option<ViewFingerprint>,
    mode: MetalFxMode,
    reset_generation: u64,
    view: ViewFingerprint,
    sample_epoch: u64,
    frame: u64,
    current_frame: u64,
    max_sample_age_frames: u64,
    sample_time_valid: bool,
    controller: AdaptiveReason,
    delivery: GovernorObservation,
    max_sample_age: u64,
)
    requires
        before.starts_epoch(config_changed, fingerprint, mode, reset_generation),
        after.spec_epoch() == before.spec_epoch() + 1,
        sample_epoch <= before.spec_epoch(),
        !delivery.cost_present,
    ensures
        measured_hold_spec(
            Ok(view),
            None,
            Some((sample_epoch, frame)),
            after.spec_epoch(),
            current_frame,
            max_sample_age_frames,
        ) == (Some(MetalFxAdaptiveReason::SampleEpochMismatch), true),
        update_reason_spec(
            Some(MetalFxAdaptiveReason::SampleEpochMismatch),
            sample_time_valid,
            controller,
        ) == MetalFxAdaptiveReason::SampleEpochMismatch,
        rejection(delivery, max_sample_age) is Some,
{
}

/// The measurement-epoch bookkeeping of the adapter. A new epoch begins
/// whenever the policy, the measured view, the mode or the explicit reset
/// generation changes; samples of an older epoch are then rejected.
#[derive(Clone, Copy, Debug)]
pub struct AdaptiveEpochs {
    epoch: u64,
    fingerprint: Option<ViewFingerprint>,
    last_mode: Option<MetalFxMode>,
    reset_generation: u64,
}

impl AdaptiveEpochs {
    /// The current measurement epoch.
    pub closed spec fn spec_epoch(self) -> u64 {
        self.epoch
    }

    /// The view the current epoch measures.
    pub closed spec fn spec_fingerprint(self) -> Option<ViewFingerprint> {
        self.fingerprint
    }

    /// The mode the current epoch was started in.
    pub closed spec fn spec_mode(self) -> Option<MetalFxMode> {
        self.last_mode
    }

    /// The explicit reset generation the current epoch has absorbed.
    pub closed spec fn spec_reset_generation(self) -> u64 {
        self.reset_generation
    }

    /// Epoch zero, nothing recorded yet.
    pub fn new() -> (r: Self)
        ensures
            r.spec_epoch() == 0,
            r.spec_fingerprint() is None,
            r.spec_mode() is None,
            r.spec_reset_generation() == 0,
    {
        AdaptiveEpochs { epoch: 0, fingerprint: None, last_mode: None, reset_generation: 0 }
    }

    /// The current measurement epoch.
    pub fn epoch(&self) -> (r: u64)
        ensures
            r == self.spec_epoch(),
    {
        self.epoch
    }

    /// The view the current epoch measures.
    pub fn fingerprint(&self) -> (r: Option<ViewFingerprint>)
        ensures
            r == self.spec_fingerprint(),
    {
        self.fingerprint
    }

    /// Adaptation is off or MetalFX is disabled: a mode change starts a new
    /// epoch so that evidence cannot cross it.
    pub fn on_inactive(&mut self, mode: MetalFxMode)
        requires
            old(self).spec_mode() != Some(mode) ==> old(self).spec_epoch() < u64::MAX,
        ensures
            final(self).spec_mode() == Some(mode),
            final(self).spec_epoch() == if old(self).spec_mode() != Some(mode) {
                (old(self).spec_epoch() + 1) as u64
            } else {
                old(self).spec_epoch()
            },
            final(self).spec_fingerprint() == old(self).spec_fingerprint(),
            final(self).spec_reset_generation() == old(self).spec_reset_generation(),
    {
        let changed = match self.last_mode {
            Some(m) => m != mode,
            None => true,
        };
        if changed {
            self.epoch = self.epoch + 1;
            self.last_mode = Some(mode);
        }
    }

    /// The policy is invalid: a changed policy still starts a new epoch.
    pub fn on_invalid_configuration(&mut self, config_changed: bool)
        requires
            config_changed ==> old(self).spec_epoch() < u64::MAX,
        ensures
            final(self).spec_epoch() == if config_changed {
                (old(self).spec_epoch() + 1) as u64
            } else {
                old(self).spec_epoch()
            },
            final(self).spec_fingerprint() == old(self).spec_fingerprint(),
            final(self).spec_mode() == old(self).spec_mode(),
            final(self).spec_reset_generation() == old(self).spec_reset_generation(),
    {
        if config_changed {
            self.epoch = self.epoch + 1;
        }
    }

    /// Whether an active frame with these inputs starts a new epoch.
    pub open spec fn starts_epoch(
        self,
        config_changed: bool,
        fingerprint: Option<ViewFingerprint>,
        mode: MetalFxMode,
        reset_generation: u64,
    ) -> bool {
        ||| config_changed
        ||| self.spec_fingerprint() != fingerprint
        ||| self.spec_mode() != Some(mode)
        ||| self.spec_reset_generation() != reset_generation
    }

    /// The mode the current epoch was started in.
    pub fn last_mode(&self) -> (r: Option<MetalFxMode>)
        ensures
            r == self.spec_mode(),
    {
        self.last_mode
    }

    /// Whether an active frame with these inputs would start a new epoch.
    pub fn would_start_epoch(
        &self,
        config_changed: bool,
        fingerprint: Option<ViewFingerprint>,
        mode: MetalFxMode,
        reset_generation: u64,
    ) -> (r: bool)
        ensures
            r == self.starts_epoch(config_changed, fingerprint, mode, reset_generation),
            r <==> (config_changed || self.spec_fingerprint() != fingerprint || self.spec_mode()
                != Some(mode) || self.spec_reset_generation() != reset_generation),
    {
        let fingerprint_changed = match (self.fingerprint, fingerprint) {
            (None, None) => false,
            (Some(a), Some(b)) => a.view_id != b.view_id || a.window_id != b.window_id
                || a.output_size[0] != b.output_size[0] || a.output_size[1] != b.output_size[1],
            _ => true,
        };
        let mode_changed = match self.last_mode {
            Some(m) => m != mode,
            None => true,
        };
        proof {
            if !fingerprint_changed && fingerprint is Some {
                assert(self.fingerprint->0.output_size == fingerprint->0.output_size);
            }
        }
        config_changed || fingerprint_changed || mode_changed || self.reset_generation
            != reset_generation
    }

    /// An active frame: a changed policy, measured view, mode or explicit
    /// reset generation starts a new epoch and records the new inputs.
    /// Returns whether the controller's evidence must be reset.
    pub fn on_active(
        &mut self,
        config_changed: bool,
        fingerprint: Option<ViewFingerprint>,
        mode: MetalFxMode,
        reset_generation: u64,
    ) -> (r: bool)
        requires
            old(self).starts_epoch(config_changed, fingerprint, mode, reset_generation)
                ==> old(self).spec_epoch() < u64::MAX,
        ensures
            r == old(self).starts_epoch(config_changed, fingerprint, mode, reset_generation),
            r <==> (config_changed || old(self).spec_fingerprint() != fingerprint
            || old(self).spec_mode() != Some(mode) || old(self).spec_reset_generation()
            != reset_generation),
            r ==> final(self).spec_epoch() == old(self).spec_epoch() + 1,
            r ==> final(self).spec_fingerprint() == fingerprint,
            r ==> final(self).spec_mode() == Some(mode),
            r ==> final(self).spec_reset_generation() == reset_generation,
            !r ==> *final(self) == *old(self),
    {
        let fingerprint_changed = match (self.fingerprint, fingerprint) {
            (None, None) => false,
            (Some(a), Some(b)) => a.view_id != b.view_id || a.window_id != b.window_id
                || a.output_size[0] != b.output_size[0] || a.output_size[1] != b.output_size[1],
            _ => true,
        };
        let mode_changed = match self.last_mode {
            Some(m) => m != mode,
            None => true,
        };
        proof {
            if !fingerprint_changed && fingerprint is Some {
                assert(self.fingerprint->0.output_size == fingerprint->0.output_size);
            }
        }
        if config_changed || fingerprint_changed || mode_changed || self.reset_generation
            != reset_generation {
            self.epoch = self.epoch + 1;
            self.fingerprint = fingerprint;
            self.last_mode = Some(mode);
            self.reset_generation = reset_generation;
            true
        } else {
            false
        }
    }
}

/// A new epoch rejects every sample recorded before it: once a changed
/// policy, measured view (a resize included), mode or explicit reset
/// generation has started a new epoch, a sample stamped with the previous
/// epoch, or any earlier one, is held as `SampleEpochMismatch` and cannot
/// drive the controller.
pub proof fn law_new_epoch_rejects_old_samples(
    before: AdaptiveEpochs,
    after: AdaptiveEpochs,
    config_changed: bool,
    fingerprint: Option<ViewFingerprint>,
    mode: MetalFxMode,
    reset_generation: u64,
    sample_epoch: u64,
    frame: u64,
    current_frame: u64,
    max_sample_age_frames: u64,
)
    requires
        before.starts_epoch(config_changed, fingerprint, mode, reset_generation),
        after.spec_epoch() == before.spec_epoch() + 1,
        sample_epoch <= before.spec_epoch(),
    ensures
        sample_hold(Some((sample_epoch, frame)), after.spec_epoch(), current_frame, max_sample_age_frames)
            == Some(MetalFxAdaptiveReason::SampleEpochMismatch),
{
}

/// A changed input always starts a new epoch: a different measured view in
/// any field (the camera entity, its window or the window's size), a
/// changed policy, mode or explicit reset generation. With none of them
/// changed no epoch starts.
pub proof fn law_any_changed_input_starts_an_epoch(
    epochs: AdaptiveEpochs,
    config_changed: bool,
    fingerprint: Option<ViewFingerprint>,
    mode: MetalFxMode,
    reset_generation: u64,
)
    ensures
        epochs.spec_fingerprint() != fingerprint ==> epochs.starts_epoch(
            config_changed,
            fingerprint,
            mode,
            reset_generation,
        ),
        (epochs.spec_fingerprint() matches Some(a) && fingerprint matches Some(b) && a.view_id
            != b.view_id) ==> epochs.starts_epoch(config_changed, fingerprint, mode, reset_generation),
        config_changed ==> epochs.starts_epoch(config_changed, fingerprint, mode, reset_generation),
        epochs.spec_mode() != Some(mode) ==> epochs.starts_epoch(
            config_changed,
            fingerprint,
            mode,
            reset_generation,
        ),
        epochs.spec_reset_generation() != reset_generation ==> epochs.starts_epoch(
            config_changed,
            fingerprint,
            mode,
            reset_generation,
        ),
        !config_changed && epochs.spec_fingerprint() == fingerprint && epochs.spec_mode() == Some(
            mode,
        ) && epochs.spec_reset_generation() == reset_generation ==> !epochs.starts_epoch(
            config_changed,
            fingerprint,
            mode,
            reset_generation,
        ),
{
}

/// An effect lets its cost drive adaptation only when it is fresh, its
/// output was written, and it ran in the active mode at the active scale
/// with the expected, nonempty content inside the measured output; an
/// effect that ran in any other mode always holds the scale with
/// `EffectConfigurationMismatch`.
pub proof fn law_only_a_matching_effect_can_drive_adaptation(
    snapshot: MetalFxEffectSnapshot,
    max_age_frames: u64,
    max_wall_age: u64,
    now: u64,
    mode: MetalFxMode,
    scale_matches: bool,
    output_size: [u32; 2],
    expected_content: [u32; 2],
)
    ensures
        effect_hold(
            snapshot,
            max_age_frames,
            max_wall_age,
            now,
            mode,
            scale_matches,
            output_size,
            expected_content,
        ) is None ==> snapshot.fresh_at(max_age_frames, max_wall_age, now) && (
        snapshot.last_observation matches Some(o) && o.state == MetalFxEffectState::OutputWritten
            && o.effective_mode == mode && scale_matches && o.output_size == output_size
            && o.content_size == expected_content && o.content_size[0] > 0 && o.content_size[1]
            > 0),
        snapshot.fresh_at(max_age_frames, max_wall_age, now) ==> ((snapshot.last_observation matches Some(
            o,
        ) && o.state == MetalFxEffectState::OutputWritten && o.effective_mode != mode)
            ==> effect_hold(
            snapshot,
            max_age_frames,
            max_wall_age,
            now,
            mode,
            scale_matches,
            output_size,
            expected_content,
        ) == Some(MetalFxAdaptiveReason::EffectConfigurationMismatch)),
        !snapshot.fresh_at(max_age_frames, max_wall_age, now) ==> effect_hold(
            snapshot,
            max_age_frames,
            max_wall_age,
            now,
            mode,
            scale_matches,
            output_size,
            expected_content,
        ) == Some(MetalFxAdaptiveReason::EffectStale),
{
}

} // verus!
