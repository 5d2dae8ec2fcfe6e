//! Crop-aware bilinear control for a reduced main-pass viewport.
//!
//! The control expands the reduced scene into the next main texture before
//! tonemapping and native-resolution UI. It is the comparison arm of the
//! Disabled mode at a reduced scale, and the fallback of Spatial and Temporal
//! while their own output is missing for the frame.

use crate::effect::{MetalFxEffectObservation, MetalFxEffectReason, MetalFxEffectState};
use crate::effect_runtime::{observed_content_size, observed_content_spec, view_scope_error};
use crate::mode::MetalFxMode;
use vstd::prelude::*;

verus! {

/// What the control pass does for a view this frame.
#[derive(Debug, Clone, Copy, PartialEq, Eq, Structural)]
pub enum ControlAction {
    /// Leave the view alone: MetalFX already wrote this frame's output, or
    /// the mode keeps its own late output path.
    Bypass,
    /// Run as the Disabled mode's comparison arm and publish its outcome.
    DisabledControl,
    /// Expand the reduced scene in place of missing MetalFX output, leaving
    /// the effect's own observation untouched.
    ActiveFallback,
}

/// Decide the control pass for `mode` at `frame`, given the frame of the
/// view's retained observation and whether it recorded written output.
pub fn control_action(
    mode: MetalFxMode,
    frame: u64,
    observed_frame: Option<u64>,
    output_written: bool,
) -> (r: ControlAction)
    ensures
        mode == MetalFxMode::Disabled ==> r == ControlAction::DisabledControl,
        (mode == MetalFxMode::Spatial || mode == MetalFxMode::Temporal) ==> (r == if observed_frame
            == Some(frame) && output_written {
            ControlAction::Bypass
        } else {
            ControlAction::ActiveFallback
        }),
        mode == MetalFxMode::FrameInterpolation ==> r == ControlAction::Bypass,
{
    match mode {
        MetalFxMode::Disabled => ControlAction::DisabledControl,
        MetalFxMode::Spatial | MetalFxMode::Temporal => {
            let this_frame = match observed_frame {
                Some(f) => f == frame,
                None => false,
            };
            if !this_frame || !output_written {
                ControlAction::ActiveFallback
            } else {
                ControlAction::Bypass
            }
        },
        MetalFxMode::FrameInterpolation => ControlAction::Bypass,
    }
}

/// The region of the main texture to expand: `Ok(None)` when the content
/// already fills the output and no extra pass is needed, `Ok(Some(content))`
/// for a reduced region, `Err(())` for empty or oversized content.
pub open spec fn crop_extent_spec(output: [u32; 2], content: Option<[u32; 2]>) -> Result<
    Option<[u32; 2]>,
    (),
> {
    let c = match content {
        Some(c) => c,
        None => output,
    };
    if output[0] == 0 || output[1] == 0 || c[0] == 0 || c[1] == 0 || c[0] > output[0] || c[1]
        > output[1] {
        Err(())
    } else if c[0] == output[0] && c[1] == output[1] {
        Ok(None)
    } else {
        Ok(Some(c))
    }
}

/// Choose the crop the control copies from the main texture, using the
/// actual content extent rather than applying the scale a second time.
pub fn crop_extent(output: [u32; 2], content: Option<[u32; 2]>) -> (r: Result<
    Option<[u32; 2]>,
    (),
>)
    ensures
        r == crop_extent_spec(output, content),
        r == Ok::<Option<[u32; 2]>, ()>(None) ==> (match content {
            Some(c) => c,
            None => output,
        }) == output,
        r matches Ok(Some(c)) ==> content == Some(c) && c != output && 0 < c[0] <= output[0] && 0
            < c[1] <= output[1],
{
    let c = match content {
        Some(c) => c,
        None => output,
    };
    if output[0] == 0 || output[1] == 0 || c[0] == 0 || c[1] == 0 || c[0] > output[0] || c[1]
        > output[1] {
        return Err(());
    }
    if c[0] == output[0] && c[1] == output[1] {
        proof {
            assert(c == output);
        }
        Ok(None)
    } else {
        Ok(Some(c))
    }
}

/// The state of the bilinear blit pipeline for the output format.
#[derive(Debug, Clone, Copy, PartialEq, Eq, Structural)]
pub enum BlitPipeline {
    Ready,
    /// Still compiling.
    Pending,
    /// Compilation failed.
    Failed,
}

/// What the control pass does after its checks.
#[derive(Debug, Clone, Copy, PartialEq, Eq)]
pub enum ControlStep {
    /// Stop without touching the output, publishing the observation if any.
    Stop(Option<(MetalFxEffectState, MetalFxEffectReason)>),
    /// Copy `crop` of the main texture and expand it into the whole output,
    /// then publish `then_publish` if any.
    Draw { crop: [u32; 2], then_publish: Option<(MetalFxEffectState, MetalFxEffectReason)> },
}

/// The observation the control publishes for `state` and `reason`: only the
/// Disabled mode's comparison arm publishes; an active fallback leaves the
/// effect's own observation, failure included, in place.
pub open spec fn control_publication(
    action: ControlAction,
    state: MetalFxEffectState,
    reason: MetalFxEffectReason,
) -> Option<(MetalFxEffectState, MetalFxEffectReason)> {
    if action == ControlAction::DisabledControl {
        Some((state, reason))
    } else {
        None
    }
}

/// The control's step for one view: the view must be the only one, its
/// content valid for a full-target viewport, and reduced; the format must be
/// supported and copyable, and the pipeline ready. Every exit precedes any
/// write, so a pending pipeline leaves the existing output intact.
pub open spec fn control_step_spec(
    action: ControlAction,
    active_views: usize,
    output: [u32; 2],
    content: [u32; 2],
    viewport: Option<([u32; 2], [u32; 2])>,
    format_supported: bool,
    pipeline: BlitPipeline,
) -> ControlStep {
    if action == ControlAction::Bypass {
        ControlStep::Stop(None)
    } else if active_views == 0 {
        ControlStep::Stop(
            control_publication(
                action,
                MetalFxEffectState::Unavailable,
                MetalFxEffectReason::NoRenderView,
            ),
        )
    } else if active_views > 1 {
        ControlStep::Stop(
            control_publication(
                action,
                MetalFxEffectState::Unavailable,
                MetalFxEffectReason::MultipleViewsUnsupported,
            ),
        )
    } else if observed_content_spec(output, Some(content), viewport) is Err {
        ControlStep::Stop(
            control_publication(
                action,
                MetalFxEffectState::Unavailable,
                observed_content_spec(output, Some(content), viewport)->Err_0,
            ),
        )
    } else {
        match crop_extent_spec(output, Some(content)) {
            Err(()) => ControlStep::Stop(
                control_publication(
                    action,
                    MetalFxEffectState::Unavailable,
                    MetalFxEffectReason::InvalidDimensions,
                ),
            ),
            Ok(None) => ControlStep::Stop(
                control_publication(
                    action,
                    MetalFxEffectState::Disabled,
                    MetalFxEffectReason::ModeDisabled,
                ),
            ),
            Ok(Some(crop)) => if !format_supported {
                ControlStep::Stop(
                    control_publication(
                        action,
                        MetalFxEffectState::Unavailable,
                        MetalFxEffectReason::UnsupportedFormat,
                    ),
                )
            } else {
                match pipeline {
                    BlitPipeline::Failed => ControlStep::Stop(
                        control_publication(
                            action,
                            MetalFxEffectState::Failed,
                            MetalFxEffectReason::BlitPipelineFailed,
                        ),
                    ),
                    BlitPipeline::Pending => ControlStep::Stop(
                        control_publication(
                            action,
                            MetalFxEffectState::Pending,
                            MetalFxEffectReason::BlitPipelinePending,
                        ),
                    ),
                    BlitPipeline::Ready => ControlStep::Draw {
                        crop,
                        then_publish: control_publication(
                            action,
                            MetalFxEffectState::Disabled,
                            MetalFxEffectReason::ModeDisabled,
                        ),
                    },
                }
            },
        }
    }
}

fn publication(
    action: ControlAction,
    state: MetalFxEffectState,
    reason: MetalFxEffectReason,
) -> (r: Option<(MetalFxEffectState, MetalFxEffectReason)>)
    ensures
        r == control_publication(action, state, reason),
{
    if action == ControlAction::DisabledControl {
        Some((state, reason))
    } else {
        None
    }
}

/// Decide the control pass's step for one view. `active_views` counts the
/// 3D views this frame (counting to two suffices); `format_supported` says
/// whether the output format is one the blit handles and the main texture
/// can be copied from; `pipeline` is consulted only once every other check
/// has passed. Only the Disabled comparison arm ever publishes.
pub fn control_step(
    action: ControlAction,
    active_views: usize,
    output: [u32; 2],
    content: [u32; 2],
    viewport: Option<([u32; 2], [u32; 2])>,
    format_supported: bool,
    pipeline: BlitPipeline,
) -> (r: ControlStep)
    ensures
        r == control_step_spec(
            action,
            active_views,
            output,
            content,
            viewport,
            format_supported,
            pipeline,
        ),
        action == ControlAction::ActiveFallback ==> (r == ControlStep::Stop(None) || r matches ControlStep::Draw { then_publish: None, .. }),
        r matches ControlStep::Draw { crop, .. } ==> pipeline == BlitPipeline::Ready
            && format_supported && crop[0] <= output[0] && crop[1] <= output[1] && (crop[0]
            < output[0] || crop[1] < output[1]),
{
    if action == ControlAction::Bypass {
        return ControlStep::Stop(None);
    }
    if let Some(reason) = view_scope_error(active_views) {
        return ControlStep::Stop(publication(action, MetalFxEffectState::Unavailable, reason));
    }
    if let Err(reason) = observed_content_size(output, Some(content), viewport) {
        return ControlStep::Stop(publication(action, MetalFxEffectState::Unavailable, reason));
    }
    match crop_extent(output, Some(content)) {
        Err(()) => ControlStep::Stop(
            publication(action, MetalFxEffectState::Unavailable, MetalFxEffectReason::InvalidDimensions),
        ),
        Ok(None) => ControlStep::Stop(
            publication(action, MetalFxEffectState::Disabled, MetalFxEffectReason::ModeDisabled),
        ),
        Ok(Some(crop)) => {
            if !format_supported {
                return ControlStep::Stop(
                    publication(
                        action,
                        MetalFxEffectState::Unavailable,
                        MetalFxEffectReason::UnsupportedFormat,
                    ),
                );
            }
            match pipeline {
                BlitPipeline::Failed => ControlStep::Stop(
                    publication(
                        action,
                        MetalFxEffectState::Failed,
                        MetalFxEffectReason::BlitPipelineFailed,
                    ),
                ),
                BlitPipeline::Pending => ControlStep::Stop(
                    publication(
                        action,
                        MetalFxEffectState::Pending,
                        MetalFxEffectReason::BlitPipelinePending,
                    ),
                ),
                BlitPipeline::Ready => ControlStep::Draw {
                    crop,
                    then_publish: publication(
                        action,
                        MetalFxEffectState::Disabled,
                        MetalFxEffectReason::ModeDisabled,
                    ),
                },
            }
        },
    }
}

/// The observation the Disabled comparison arm publishes for frame
/// `frame_id` of view `view_id`: it was asked for the Disabled mode and ran
/// as Disabled, at the requested scale (bit pattern `requested_scale_bits`),
/// for the rendered `content` inside `output`, with `state` and `reason`.
pub fn control_observation(
    frame_id: u64,
    view_id: u64,
    requested_scale_bits: u32,
    content: [u32; 2],
    output: [u32; 2],
    state: MetalFxEffectState,
    reason: MetalFxEffectReason,
    observed_at: u64,
    sequence: u64,
) -> (r: MetalFxEffectObservation)
    ensures
        r.frame_id == frame_id,
        r.view_id == view_id,
        r.requested_mode == MetalFxMode::Disabled,
        r.effective_mode == MetalFxMode::Disabled,
        r.requested_scale_bits == requested_scale_bits,
        r.content_size == content,
        r.output_size == output,
        r.state == state,
        r.reason == Some(reason),
        r.observed_at == observed_at,
        r.order_sequence() == sequence,
{
    MetalFxEffectObservation::new(
        frame_id,
        view_id,
        MetalFxMode::Disabled,
        MetalFxMode::Disabled,
        requested_scale_bits,
        content,
        output,
        state,
        Some(reason),
        observed_at,
        sequence,
    )
}

/// The control treats content as native only when it fills the output in
/// both dimensions: any valid content smaller in either dimension is
/// expanded, and invalid content (empty, or larger than a nonempty output)
/// is refused.
pub proof fn law_only_full_content_skips_the_control(output: [u32; 2], content: [u32; 2])
    ensures
        content == output && output[0] > 0 && output[1] > 0 ==> crop_extent_spec(output, Some(content))
            == Ok::<Option<[u32; 2]>, ()>(None),
        0 < content[0] <= output[0] && 0 < content[1] <= output[1] && (content[0] < output[0]
            || content[1] < output[1]) ==> crop_extent_spec(output, Some(content)) == Ok::<
            Option<[u32; 2]>,
            (),
        >(Some(content)),
        (content[0] == 0 || content[1] == 0 || content[0] > output[0] || content[1] > output[1])
            ==> crop_extent_spec(output, Some(content)) is Err,
{
}

} // verus!
