//! Render-path decisions that feed the shared effect registry: which mode a
//! build can run, what content a view really rendered, and how bypass
//! decisions are published without erasing a control pass's own result.

use crate::effect::{
    publish_outcome, EffectRegistry, MetalFxEffectObservation, MetalFxEffectReason,
    MetalFxEffectState,
};
use crate::mode::MetalFxMode;
use vstd::prelude::*;

verus! {

/// The optional encode paths compiled into a build.
#[derive(Debug, Clone, Copy, PartialEq, Eq, Structural)]
pub struct CompiledFeatures {
    /// Whether temporal upscaling is built.
    pub temporal: bool,
    /// Whether frame interpolation is built.
    pub frame_interpolation: bool,
}

/// The mode a build can actually run for `requested`: a missing temporal
/// path falls back to spatial; a missing interpolation path falls back to
/// temporal when that is built, else to spatial.
pub open spec fn compiled_mode_spec(
    requested: MetalFxMode,
    features: CompiledFeatures,
) -> MetalFxMode {
    match requested {
        MetalFxMode::Temporal => if features.temporal {
            MetalFxMode::Temporal
        } else {
            MetalFxMode::Spatial
        },
        MetalFxMode::FrameInterpolation => if features.frame_interpolation {
            MetalFxMode::FrameInterpolation
        } else if features.temporal {
            MetalFxMode::Temporal
        } else {
            MetalFxMode::Spatial
        },
        mode => mode,
    }
}

/// Select the mode a build with `features` runs when `requested` is asked for.
pub fn compiled_mode(requested: MetalFxMode, features: CompiledFeatures) -> (r: MetalFxMode)
    ensures
        r == compiled_mode_spec(requested, features),
        r == MetalFxMode::Temporal ==> features.temporal,
        r == MetalFxMode::FrameInterpolation ==> features.frame_interpolation,
        (r == MetalFxMode::Disabled) == (requested == MetalFxMode::Disabled),
        (requested == MetalFxMode::Spatial || requested == MetalFxMode::Disabled) ==> r == requested,
{
    match requested {
        MetalFxMode::Temporal => if features.temporal {
            MetalFxMode::Temporal
        } else {
            MetalFxMode::Spatial
        },
        MetalFxMode::FrameInterpolation => if features.frame_interpolation {
            MetalFxMode::FrameInterpolation
        } else if features.temporal {
            MetalFxMode::Temporal
        } else {
            MetalFxMode::Spatial
        },
        mode => mode,
    }
}

/// The content a view rendered, or why it cannot be trusted.
///
/// Zero output dimensions and content that is empty or larger than the
/// output are invalid; a viewport that is offset or smaller than the output
/// is unsupported. Without an override the content is the whole output.
pub open spec fn observed_content_spec(
    output: [u32; 2],
    content_override: Option<[u32; 2]>,
    viewport: Option<([u32; 2], [u32; 2])>,
) -> Result<[u32; 2], MetalFxEffectReason> {
    if output[0] == 0 || output[1] == 0 {
        Err(MetalFxEffectReason::InvalidDimensions)
    } else if viewport matches Some((origin, size)) && (origin[0] != 0 || origin[1] != 0 || size[0]
        != output[0] || size[1] != output[1]) {
        Err(MetalFxEffectReason::UnsupportedViewport)
    } else {
        let content = match content_override {
            Some(c) => c,
            None => output,
        };
        if content[0] == 0 || content[1] == 0 || content[0] > output[0] || content[1] > output[1] {
            Err(MetalFxEffectReason::InvalidDimensions)
        } else {
            Ok(content)
        }
    }
}

/// Check a view's rendered content against its output and viewport.
pub fn observed_content_size(
    output: [u32; 2],
    content_override: Option<[u32; 2]>,
    viewport: Option<([u32; 2], [u32; 2])>,
) -> (r: Result<[u32; 2], MetalFxEffectReason>)
    ensures
        r == observed_content_spec(output, content_override, viewport),
        r matches Ok(c) ==> 0 < c[0] <= output[0] && 0 < c[1] <= output[1] && c == (match content_override {
            Some(o) => o,
            None => output,
        }) && (viewport matches Some((origin, size)) ==> origin == [0u32, 0u32] && size == output),
{
    if output[0] == 0 || output[1] == 0 {
        return Err(MetalFxEffectReason::InvalidDimensions);
    }
    if let Some((origin, size)) = viewport {
        if origin[0] != 0 || origin[1] != 0 || size[0] != output[0] || size[1] != output[1] {
            return Err(MetalFxEffectReason::UnsupportedViewport);
        }
    }
    let content = match content_override {
        Some(c) => c,
        None => output,
    };
    if content[0] == 0 || content[1] == 0 || content[0] > output[0] || content[1] > output[1] {
        return Err(MetalFxEffectReason::InvalidDimensions);
    }
    Ok(content)
}

/// The scaler cache serves exactly one view: none is a missing render, more
/// than one cannot be isolated.
pub fn view_scope_error(active_views: usize) -> (r: Option<MetalFxEffectReason>)
    ensures
        active_views == 0 ==> r == Some(MetalFxEffectReason::NoRenderView),
        active_views == 1 ==> r is None,
        active_views > 1 ==> r == Some(MetalFxEffectReason::MultipleViewsUnsupported),
{
    if active_views == 0 {
        Some(MetalFxEffectReason::NoRenderView)
    } else if active_views == 1 {
        None
    } else {
        Some(MetalFxEffectReason::MultipleViewsUnsupported)
    }
}

/// The terminal decision of a view that MetalFX does not process: disabled
/// by request, or unavailable (the framework missing on macOS, the platform
/// elsewhere). `None` when the effect can run.
pub fn inactive_state(mode: MetalFxMode, available: bool, on_macos: bool) -> (r: Option<
    (MetalFxEffectState, MetalFxEffectReason),
>)
    ensures
        mode == MetalFxMode::Disabled ==> r == Some(
            (MetalFxEffectState::Disabled, MetalFxEffectReason::ModeDisabled),
        ),
        mode != MetalFxMode::Disabled && !available && on_macos ==> r == Some(
            (MetalFxEffectState::Unavailable, MetalFxEffectReason::FrameworkUnavailable),
        ),
        mode != MetalFxMode::Disabled && !available && !on_macos ==> r == Some(
            (MetalFxEffectState::Unavailable, MetalFxEffectReason::UnsupportedPlatform),
        ),
        mode != MetalFxMode::Disabled && available ==> r is None,
{
    if mode == MetalFxMode::Disabled {
        Some((MetalFxEffectState::Disabled, MetalFxEffectReason::ModeDisabled))
    } else if !available {
        Some(
            (
                MetalFxEffectState::Unavailable,
                if on_macos {
                    MetalFxEffectReason::FrameworkUnavailable
                } else {
                    MetalFxEffectReason::UnsupportedPlatform
                },
            ),
        )
    } else {
        None
    }
}

/// Whether the `f32` with bit pattern `bits` compares below `1.0` under IEEE
/// 754: NaN never does; every negative value and both zeros do; otherwise
/// positive values order as their bit patterns.
pub open spec fn f32_bits_below_one(bits: u32) -> bool {
    &&& (bits & 0x7fff_ffffu32) <= 0x7f80_0000u32
    &&& (bits >= 0x8000_0000u32 || bits < 0x3f80_0000u32)
}

/// Compare a bit-encoded `f32` render scale with `1.0`.
pub fn scale_bits_below_one(bits: u32) -> (r: bool)
    ensures
        r == f32_bits_below_one(bits),
{
    (bits & 0x7fff_ffffu32) <= 0x7f80_0000u32 && (bits >= 0x8000_0000u32 || bits < 0x3f80_0000u32)
}

/// Whether `existing` is this frame's own decision by the reduced-resolution
/// control for the same request, content and output.
pub open spec fn is_same_control(
    existing: MetalFxEffectObservation,
    observation: MetalFxEffectObservation,
) -> bool {
    &&& existing.frame_id == observation.frame_id
    &&& existing.requested_mode == observation.requested_mode
    &&& existing.requested_scale_bits == observation.requested_scale_bits
    &&& existing.content_size == observation.content_size
    &&& existing.output_size == observation.output_size
}

/// Whether a bypass observation must leave the retained decision in place:
/// a disabled, reduced-scale request whose control pass already published
/// its own terminal decision for this frame.
pub open spec fn keeps_control_decision(
    m: Map<u64, MetalFxEffectObservation>,
    observation: MetalFxEffectObservation,
) -> bool {
    &&& observation.requested_mode == MetalFxMode::Disabled
    &&& f32_bits_below_one(observation.requested_scale_bits)
    &&& m.contains_key(observation.view_id)
    &&& is_same_control(m[observation.view_id], observation)
}

/// Where the MetalFX pass of a view ended.
#[derive(Debug, Clone, Copy, PartialEq, Eq, Structural)]
pub enum PassExit {
    /// No eligible view rendered.
    NoRenderView,
    /// More than one view is active.
    MultipleViews,
    /// The content or viewport cannot be trusted, for this reason.
    InvalidContent(MetalFxEffectReason),
    /// The mode is disabled.
    ModeDisabled,
    /// The main texture's format has no Metal equivalent.
    UnsupportedFormat,
    /// The scaler's color processing cannot describe the input, for this reason.
    ColorProcessing(MetalFxEffectReason),
    /// No scaler is ready, for this reason.
    ScalerNotReady(MetalFxEffectReason),
    /// Depth or motion-vector inputs are missing.
    MissingPrepass,
    /// Encoding could not reach a raw Metal handle.
    EncodeFailed,
    /// The view has no output target or format.
    MissingOutput,
    /// The pipeline that writes the output is not ready; `failed` says its
    /// compilation failed rather than still running.
    BlitPipelineNotReady { failed: bool },
    /// The output was written.
    Written,
}

/// The observation the pass publishes at `exit`: the effective mode, the
/// state and the reason. Until a scaler is obtained the effective mode is
/// `Disabled`; afterwards it is `effective`. A scaler that is still being
/// made (or made slowly) is pending; any other scaler failure failed. Work
/// that was encoded but never written to the output reports `Encoded`. A
/// written output reports `FeatureUnavailable` when the effective mode is
/// not the requested one.
pub open spec fn pass_outcome_spec(
    exit: PassExit,
    effective: MetalFxMode,
    requested: MetalFxMode,
) -> (MetalFxMode, MetalFxEffectState, Option<MetalFxEffectReason>) {
    match exit {
        PassExit::NoRenderView => (
            MetalFxMode::Disabled,
            MetalFxEffectState::NoRender,
            Some(MetalFxEffectReason::NoRenderView),
        ),
        PassExit::MultipleViews => (
            MetalFxMode::Disabled,
            MetalFxEffectState::Unavailable,
            Some(MetalFxEffectReason::MultipleViewsUnsupported),
        ),
        PassExit::InvalidContent(reason) => (
            MetalFxMode::Disabled,
            MetalFxEffectState::Unavailable,
            Some(reason),
        ),
        PassExit::ModeDisabled => (
            MetalFxMode::Disabled,
            MetalFxEffectState::Disabled,
            Some(MetalFxEffectReason::ModeDisabled),
        ),
        PassExit::UnsupportedFormat => (
            MetalFxMode::Disabled,
            MetalFxEffectState::Unavailable,
            Some(MetalFxEffectReason::UnsupportedFormat),
        ),
        PassExit::ColorProcessing(reason) => (
            MetalFxMode::Disabled,
            MetalFxEffectState::Unavailable,
            Some(reason),
        ),
        PassExit::ScalerNotReady(reason) => (
            MetalFxMode::Disabled,
            if reason == MetalFxEffectReason::ScalerPending || reason
                == MetalFxEffectReason::ScalerCreationSlow {
                MetalFxEffectState::Pending
            } else {
                MetalFxEffectState::Failed
            },
            Some(reason),
        ),
        PassExit::MissingPrepass => (
            MetalFxMode::Disabled,
            MetalFxEffectState::Failed,
            Some(MetalFxEffectReason::MissingPrepass),
        ),
        PassExit::EncodeFailed => (
            MetalFxMode::Disabled,
            MetalFxEffectState::Failed,
            Some(MetalFxEffectReason::MetalHandleUnavailable),
        ),
        PassExit::MissingOutput => (
            effective,
            MetalFxEffectState::Encoded,
            Some(MetalFxEffectReason::MissingOutput),
        ),
        PassExit::BlitPipelineNotReady { failed } => (
            effective,
            MetalFxEffectState::Encoded,
            Some(
                if failed {
                    MetalFxEffectReason::BlitPipelineFailed
                } else {
                    MetalFxEffectReason::BlitPipelinePending
                },
            ),
        ),
        PassExit::Written => (
            effective,
            MetalFxEffectState::OutputWritten,
            if effective != requested {
                Some(MetalFxEffectReason::FeatureUnavailable)
            } else {
                None
            },
        ),
    }
}

/// Map where the pass ended to the observation it publishes.
pub fn pass_outcome(exit: PassExit, effective: MetalFxMode, requested: MetalFxMode) -> (r: (
    MetalFxMode,
    MetalFxEffectState,
    Option<MetalFxEffectReason>,
))
    ensures
        r == pass_outcome_spec(exit, effective, requested),
        (r.1 == MetalFxEffectState::OutputWritten) == (exit == PassExit::Written),
        r.1 == MetalFxEffectState::Pending ==> (exit == PassExit::ScalerNotReady(
            MetalFxEffectReason::ScalerPending,
        ) || exit == PassExit::ScalerNotReady(MetalFxEffectReason::ScalerCreationSlow)),
        (r.1 == MetalFxEffectState::Encoded || r.1 == MetalFxEffectState::OutputWritten) ==> r.0
            == effective,
        !(r.1 == MetalFxEffectState::Encoded || r.1 == MetalFxEffectState::OutputWritten) ==> r.0
            == MetalFxMode::Disabled,
{
    match exit {
        PassExit::NoRenderView => (
            MetalFxMode::Disabled,
            MetalFxEffectState::NoRender,
            Some(MetalFxEffectReason::NoRenderView),
        ),
        PassExit::MultipleViews => (
            MetalFxMode::Disabled,
            MetalFxEffectState::Unavailable,
            Some(MetalFxEffectReason::MultipleViewsUnsupported),
        ),
        PassExit::InvalidContent(reason) => (
            MetalFxMode::Disabled,
            MetalFxEffectState::Unavailable,
            Some(reason),
        ),
        PassExit::ModeDisabled => (
            MetalFxMode::Disabled,
            MetalFxEffectState::Disabled,
            Some(MetalFxEffectReason::ModeDisabled),
        ),
        PassExit::UnsupportedFormat => (
            MetalFxMode::Disabled,
            MetalFxEffectState::Unavailable,
            Some(MetalFxEffectReason::UnsupportedFormat),
        ),
        PassExit::ColorProcessing(reason) => (
            MetalFxMode::Disabled,
            MetalFxEffectState::Unavailable,
            Some(reason),
        ),
        PassExit::ScalerNotReady(reason) => {
            let state = if reason == MetalFxEffectReason::ScalerPending || reason
                == MetalFxEffectReason::ScalerCreationSlow {
                MetalFxEffectState::Pending
            } else {
                MetalFxEffectState::Failed
            };
            (MetalFxMode::Disabled, state, Some(reason))
        },
        PassExit::MissingPrepass => (
            MetalFxMode::Disabled,
            MetalFxEffectState::Failed,
            Some(MetalFxEffectReason::MissingPrepass),
        ),
        PassExit::EncodeFailed => (
            MetalFxMode::Disabled,
            MetalFxEffectState::Failed,
            Some(MetalFxEffectReason::MetalHandleUnavailable),
        ),
        PassExit::MissingOutput => (
            effective,
            MetalFxEffectState::Encoded,
            Some(MetalFxEffectReason::MissingOutput),
        ),
        PassExit::BlitPipelineNotReady { failed } => {
            let reason = if failed {
                MetalFxEffectReason::BlitPipelineFailed
            } else {
                MetalFxEffectReason::BlitPipelinePending
            };
            (effective, MetalFxEffectState::Encoded, Some(reason))
        },
        PassExit::Written => {
            let reason = if effective != requested {
                Some(MetalFxEffectReason::FeatureUnavailable)
            } else {
                None
            };
            (effective, MetalFxEffectState::OutputWritten, reason)
        },
    }
}

impl EffectRegistry {
    /// Publish a bypass decision for a view MetalFX does not process.
    ///
    /// The reduced-resolution control runs first and publishes its own
    /// terminal decision, success or failure; a later bypass observation for
    /// the same frame and request must not erase it. Anything else is an
    /// ordinary publication.
    pub fn publish_inactive_observation(&mut self, observation: MetalFxEffectObservation)
        requires
            old(self).well_formed(),
        ensures
            final(self).well_formed(),
            keeps_control_decision(old(self).view(), observation) ==> final(self).view() == old(
                self,
            ).view(),
            !keeps_control_decision(old(self).view(), observation) ==> exists|r: bool|
                publish_outcome(old(self).view(), observation, r, final(self).view()),
    {
        if observation.requested_mode == MetalFxMode::Disabled && scale_bits_below_one(
            observation.requested_scale_bits,
        ) {
            let snapshot = self.snapshot(observation.view_id, observation.frame_id);
            if let Some(existing) = snapshot.last_observation {
                if existing.frame_id == observation.frame_id && existing.requested_mode
                    == observation.requested_mode && existing.requested_scale_bits
                    == observation.requested_scale_bits && existing.content_size[0]
                    == observation.content_size[0] && existing.content_size[1]
                    == observation.content_size[1] && existing.output_size[0]
                    == observation.output_size[0] && existing.output_size[1]
                    == observation.output_size[1] {
                    proof {
                        assert(existing.content_size == observation.content_size);
                        assert(existing.output_size == observation.output_size);
                    }
                    return;
                }
            }
        }
        let r = self.publish(observation);
        proof {
            if keeps_control_decision(old(self).view(), observation) {
                let e = old(self).view()[observation.view_id];
                assert(e.content_size[0] == observation.content_size[0]);
            }
        }
    }
}

} // verus!
