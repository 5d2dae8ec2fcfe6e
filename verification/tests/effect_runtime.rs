use bevy_metalfx::effect_runtime::{
    compiled_mode, inactive_state, observed_content_size, pass_outcome, scale_bits_below_one,
    view_scope_error, CompiledFeatures, PassExit,
};
use bevy_metalfx::{
    EffectRegistry, MetalFxEffectObservation, MetalFxEffectReason, MetalFxEffectState, MetalFxMode,
};

fn control(frame: u64, state: MetalFxEffectState, reason: MetalFxEffectReason, at: u64, sequence: u64) -> MetalFxEffectObservation {
    MetalFxEffectObservation::new(
        frame,
        42,
        MetalFxMode::Disabled,
        MetalFxMode::Disabled,
        0.5f32.to_bits(),
        [640, 360],
        [1280, 720],
        state,
        Some(reason),
        at,
        sequence,
    )
}

#[test]
fn inactive_observer_preserves_a_reduced_controls_terminal_decision() {
    let mut status = EffectRegistry::default();
    let mut sequence = 0;
    for terminal in [MetalFxEffectState::Pending, MetalFxEffectState::Failed] {
        status.publish(control(12, terminal, MetalFxEffectReason::BlitPipelinePending, 10 + sequence, sequence));
        sequence += 1;
        status.publish_inactive_observation(control(
            12,
            MetalFxEffectState::Disabled,
            MetalFxEffectReason::ModeDisabled,
            10 + sequence,
            sequence,
        ));
        sequence += 1;
        assert_eq!(status.snapshot(42, 12).state(), terminal);
    }
    // A decision from a previous frame cannot suppress the current view's
    // bypass observation when the control pass did not run this frame.
    status.publish_inactive_observation(control(
        13,
        MetalFxEffectState::Disabled,
        MetalFxEffectReason::ModeDisabled,
        10 + sequence,
        sequence,
    ));
    assert_eq!(status.snapshot(42, 13).state(), MetalFxEffectState::Disabled);
}

#[test]
fn full_scale_bypass_is_always_published() {
    let mut status = EffectRegistry::default();
    let mut first = control(12, MetalFxEffectState::Failed, MetalFxEffectReason::BlitPipelineFailed, 1, 1);
    first.requested_scale_bits = 1.0f32.to_bits();
    status.publish(first);
    let mut bypass = control(12, MetalFxEffectState::Disabled, MetalFxEffectReason::ModeDisabled, 2, 2);
    bypass.requested_scale_bits = 1.0f32.to_bits();
    status.publish_inactive_observation(bypass);
    assert_eq!(status.snapshot(42, 12).state(), MetalFxEffectState::Disabled);
}

#[test]
fn scaler_scope_fails_closed_when_the_view_is_missing_or_ambiguous() {
    assert_eq!(view_scope_error(0), Some(MetalFxEffectReason::NoRenderView));
    assert_eq!(view_scope_error(1), None);
    assert_eq!(
        view_scope_error(2),
        Some(MetalFxEffectReason::MultipleViewsUnsupported)
    );
}

#[test]
fn compiled_modes_never_choose_a_missing_feature() {
    for temporal in [false, true] {
        for frame_interpolation in [false, true] {
            let features = CompiledFeatures { temporal, frame_interpolation };
            assert_eq!(compiled_mode(MetalFxMode::Spatial, features), MetalFxMode::Spatial);
            assert_eq!(compiled_mode(MetalFxMode::Disabled, features), MetalFxMode::Disabled);
            assert_eq!(
                compiled_mode(MetalFxMode::Temporal, features),
                if temporal { MetalFxMode::Temporal } else { MetalFxMode::Spatial }
            );
            assert_eq!(
                compiled_mode(MetalFxMode::FrameInterpolation, features),
                if frame_interpolation {
                    MetalFxMode::FrameInterpolation
                } else if temporal {
                    MetalFxMode::Temporal
                } else {
                    MetalFxMode::Spatial
                }
            );
        }
    }
}

#[test]
fn content_size_reports_the_rendered_override_and_rejects_invalid_layouts() {
    assert_eq!(observed_content_size([1920, 1080], None, None), Ok([1920, 1080]));
    assert_eq!(
        observed_content_size([1920, 1080], Some([960, 540]), None),
        Ok([960, 540])
    );
    assert_eq!(
        observed_content_size([1920, 1080], Some([960, 540]), Some(([0, 0], [1920, 1080]))),
        Ok([960, 540])
    );
    for override_size in [[0, 540], [1921, 1080], [960, 1081]] {
        assert_eq!(
            observed_content_size([1920, 1080], Some(override_size), None),
            Err(MetalFxEffectReason::InvalidDimensions)
        );
    }
    assert_eq!(
        observed_content_size([0, 1080], None, None),
        Err(MetalFxEffectReason::InvalidDimensions)
    );
    for viewport in [([1, 0], [1920, 1080]), ([0, 0], [960, 540])] {
        assert_eq!(
            observed_content_size([1920, 1080], None, Some(viewport)),
            Err(MetalFxEffectReason::UnsupportedViewport)
        );
    }
}

#[test]
fn bypass_and_unavailable_are_explicitly_distinct() {
    for available in [false, true] {
        assert_eq!(
            inactive_state(MetalFxMode::Disabled, available, true),
            Some((MetalFxEffectState::Disabled, MetalFxEffectReason::ModeDisabled))
        );
    }
    assert_eq!(inactive_state(MetalFxMode::Spatial, true, true), None);
    assert_eq!(
        inactive_state(MetalFxMode::Spatial, false, true).unwrap().0,
        MetalFxEffectState::Unavailable
    );
    assert_eq!(
        inactive_state(MetalFxMode::Temporal, false, true),
        Some((MetalFxEffectState::Unavailable, MetalFxEffectReason::FrameworkUnavailable))
    );
    assert_eq!(
        inactive_state(MetalFxMode::Temporal, false, false),
        Some((MetalFxEffectState::Unavailable, MetalFxEffectReason::UnsupportedPlatform))
    );
}

#[test]
fn scale_bits_compare_with_one_like_f32() {
    for value in [
        0.0f32, -0.0, 0.5, 0.999_999_9, 1.0, 1.000_000_1, 2.0, -1.0, f32::INFINITY,
        f32::NEG_INFINITY, f32::NAN, -f32::NAN, f32::MIN_POSITIVE, f32::MAX, f32::MIN,
    ] {
        assert_eq!(scale_bits_below_one(value.to_bits()), value < 1.0, "{value}");
    }
}

#[test]
fn every_exit_of_the_pass_publishes_its_state_and_reason() {
    type R = MetalFxEffectReason;
    type S = MetalFxEffectState;
    let t = MetalFxMode::Temporal;
    let d = MetalFxMode::Disabled;
    let out = |exit| pass_outcome(exit, t, t);
    assert_eq!(out(PassExit::NoRenderView), (d, S::NoRender, Some(R::NoRenderView)));
    assert_eq!(out(PassExit::MultipleViews), (d, S::Unavailable, Some(R::MultipleViewsUnsupported)));
    assert_eq!(
        out(PassExit::InvalidContent(R::UnsupportedViewport)),
        (d, S::Unavailable, Some(R::UnsupportedViewport))
    );
    assert_eq!(out(PassExit::ModeDisabled), (d, S::Disabled, Some(R::ModeDisabled)));
    assert_eq!(out(PassExit::UnsupportedFormat), (d, S::Unavailable, Some(R::UnsupportedFormat)));
    assert_eq!(
        out(PassExit::ColorProcessing(R::UnsupportedFormat)),
        (d, S::Unavailable, Some(R::UnsupportedFormat))
    );
    assert_eq!(out(PassExit::ScalerNotReady(R::ScalerPending)), (d, S::Pending, Some(R::ScalerPending)));
    assert_eq!(
        out(PassExit::ScalerNotReady(R::ScalerCreationSlow)),
        (d, S::Pending, Some(R::ScalerCreationSlow))
    );
    assert_eq!(
        out(PassExit::ScalerNotReady(R::ScalerCreationFailed)),
        (d, S::Failed, Some(R::ScalerCreationFailed))
    );
    assert_eq!(out(PassExit::MissingPrepass), (d, S::Failed, Some(R::MissingPrepass)));
    assert_eq!(out(PassExit::EncodeFailed), (d, S::Failed, Some(R::MetalHandleUnavailable)));
    assert_eq!(out(PassExit::MissingOutput), (t, S::Encoded, Some(R::MissingOutput)));
    assert_eq!(
        out(PassExit::BlitPipelineNotReady { failed: false }),
        (t, S::Encoded, Some(R::BlitPipelinePending))
    );
    assert_eq!(
        out(PassExit::BlitPipelineNotReady { failed: true }),
        (t, S::Encoded, Some(R::BlitPipelineFailed))
    );
    assert_eq!(out(PassExit::Written), (t, S::OutputWritten, None));
    assert_eq!(
        pass_outcome(PassExit::Written, MetalFxMode::Spatial, t),
        (MetalFxMode::Spatial, S::OutputWritten, Some(R::FeatureUnavailable))
    );
}
