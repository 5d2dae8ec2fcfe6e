use bevy_metalfx::adaptive::{AdaptiveConfigError, AdaptiveReason, AdaptiveSampleValidity};
use bevy_metalfx::governor::{
    AdaptiveGovernor, CostVerdicts, GovernorObservation, GovernorTiming, Intake,
};
use bevy_metalfx::adaptive_runtime::{
    effect_hold_reason, finish_view, measured_hold, sample_hold_reason, start_epoch_if_due,
    update_reason, select_camera, ActiveCamera, AdaptiveEpochs, CameraTarget,
    MetalFxAdaptiveReason, ViewFingerprint,
};
use bevy_metalfx::{
    MetalFxEffectObservation, MetalFxEffectSnapshot, MetalFxEffectState, MetalFxMode,
};

fn camera(entity: u64, target: CameraTarget) -> ActiveCamera {
    ActiveCamera { entity, viewport: None, target }
}

#[test]
fn multiple_active_views_do_not_drive_one_global_scale() {
    let two = vec![camera(1, CameraTarget::PrimaryWindow), camera(2, CameraTarget::PrimaryWindow)];
    assert_eq!(
        select_camera(&two, None, Some(9)),
        Err(MetalFxAdaptiveReason::MultipleViewsUnsupported)
    );
    assert_eq!(select_camera(&vec![], None, Some(9)), Err(MetalFxAdaptiveReason::NoRenderView));
}

#[test]
fn the_primary_view_and_window_target_select_the_measured_view() {
    let one = vec![camera(1, CameraTarget::PrimaryWindow)];
    assert_eq!(select_camera(&one, None, Some(9)).map(|(c, w)| (c.entity, w)), Ok((1, 9)));
    assert_eq!(select_camera(&one, Some(2), Some(9)), Err(MetalFxAdaptiveReason::NoRenderView));
    assert_eq!(select_camera(&one, None, None), Err(MetalFxAdaptiveReason::UnsupportedTarget));
    let explicit = vec![camera(1, CameraTarget::Window(4))];
    assert_eq!(select_camera(&explicit, Some(1), None).map(|(_, w)| w), Ok(4));
    let image = vec![camera(1, CameraTarget::Other)];
    assert_eq!(select_camera(&image, None, Some(9)), Err(MetalFxAdaptiveReason::UnsupportedTarget));
}

#[test]
fn fingerprints_need_a_sized_window_and_a_full_viewport() {
    let c = camera(1, CameraTarget::PrimaryWindow);
    assert_eq!(
        finish_view(c, 9, Some([1280, 720])),
        Ok(ViewFingerprint { view_id: 1, window_id: 9, output_size: [1280, 720] })
    );
    assert_eq!(finish_view(c, 9, None), Err(MetalFxAdaptiveReason::UnsupportedTarget));
    assert_eq!(finish_view(c, 9, Some([0, 720])), Err(MetalFxAdaptiveReason::UnsupportedTarget));
    let mut offset = c;
    offset.viewport = Some(([0, 1], [1280, 720]));
    assert_eq!(finish_view(offset, 9, Some([1280, 720])), Err(MetalFxAdaptiveReason::UnsupportedViewport));
    let mut full = c;
    full.viewport = Some(([0, 0], [1280, 720]));
    assert!(finish_view(full, 9, Some([1280, 720])).is_ok());
    let mut partial = c;
    partial.viewport = Some(([0, 0], [640, 720]));
    assert_eq!(finish_view(partial, 9, Some([1280, 720])), Err(MetalFxAdaptiveReason::UnsupportedViewport));
}

#[test]
fn samples_must_match_the_epoch_and_frame_window() {
    assert_eq!(sample_hold_reason(None, 3, 100, 4), Some(MetalFxAdaptiveReason::TimingUnavailable));
    assert_eq!(sample_hold_reason(Some((2, 100)), 3, 100, 4), Some(MetalFxAdaptiveReason::SampleEpochMismatch));
    assert_eq!(sample_hold_reason(Some((3, 101)), 3, 100, 4), Some(MetalFxAdaptiveReason::SampleFrameMismatch));
    assert_eq!(sample_hold_reason(Some((3, 95)), 3, 100, 4), Some(MetalFxAdaptiveReason::SampleFrameMismatch));
    assert_eq!(sample_hold_reason(Some((3, 96)), 3, 100, 4), None);
    assert_eq!(sample_hold_reason(Some((3, 100)), 3, 100, 4), None);
}

#[test]
fn resize_and_explicit_reset_invalidate_old_sample_epoch() {
    let view = ViewFingerprint { view_id: 1, window_id: 9, output_size: [1280, 720] };
    let mut epochs = AdaptiveEpochs::new();
    assert!(epochs.on_active(true, Some(view), MetalFxMode::Temporal, 0));
    let first = epochs.epoch();
    assert!(!epochs.on_active(false, Some(view), MetalFxMode::Temporal, 0));
    assert_eq!(epochs.epoch(), first);
    let resized = ViewFingerprint { output_size: [1600, 900], ..view };
    assert!(epochs.on_active(false, Some(resized), MetalFxMode::Temporal, 0));
    assert_eq!(epochs.epoch(), first + 1);
    assert_eq!(
        sample_hold_reason(Some((first, 10)), epochs.epoch(), 10, 4),
        Some(MetalFxAdaptiveReason::SampleEpochMismatch)
    );
    assert!(epochs.on_active(false, Some(resized), MetalFxMode::Temporal, 1));
    assert_eq!(epochs.epoch(), first + 2);
    assert_eq!(epochs.fingerprint(), Some(resized));
}

#[test]
fn disabled_mode_invalidates_measurements_before_reenable() {
    let view = ViewFingerprint { view_id: 1, window_id: 9, output_size: [1280, 720] };
    let mut epochs = AdaptiveEpochs::new();
    epochs.on_active(true, Some(view), MetalFxMode::Temporal, 0);
    let active = epochs.epoch();
    epochs.on_inactive(MetalFxMode::Disabled);
    assert_eq!(epochs.epoch(), active + 1);
    epochs.on_inactive(MetalFxMode::Disabled);
    assert_eq!(epochs.epoch(), active + 1);
    assert!(epochs.on_active(false, Some(view), MetalFxMode::Temporal, 0));
    assert_eq!(epochs.epoch(), active + 2);
}

#[test]
fn invalid_policy_holds_scale_and_invalidates_old_measurements() {
    let mut epochs = AdaptiveEpochs::new();
    epochs.on_invalid_configuration(true);
    assert_eq!(epochs.epoch(), 1);
    epochs.on_invalid_configuration(false);
    assert_eq!(epochs.epoch(), 1);
    let reason = MetalFxAdaptiveReason::InvalidConfiguration(AdaptiveConfigError::InvalidTarget);
    assert_ne!(reason, MetalFxAdaptiveReason::Controller(AdaptiveReason::WithinBudget));
    assert_eq!(
        AdaptiveConfigError::InvalidTarget.message(),
        "target FPS must give a positive finite frame budget"
    );
    assert_eq!(
        AdaptiveConfigError::NoAllowedScale.message(),
        "scale ladder has no rung at or above the quality floor"
    );
}

fn written(frame: u64, state: MetalFxEffectState, content: [u32; 2]) -> MetalFxEffectObservation {
    MetalFxEffectObservation::new(
        frame,
        7,
        MetalFxMode::Temporal,
        MetalFxMode::Temporal,
        0.5f32.to_bits(),
        content,
        [1280, 720],
        state,
        None,
        1_000,
        1,
    )
}

#[test]
fn only_a_fresh_written_effect_with_the_active_configuration_can_drive_adaptation() {
    let hold = |snapshot: &MetalFxEffectSnapshot, scale_matches: bool| {
        effect_hold_reason(
            snapshot,
            2,
            50_000_000,
            2_000,
            MetalFxMode::Temporal,
            scale_matches,
            [1280, 720],
            [640, 360],
        )
    };
    let ready = MetalFxEffectSnapshot::from_observation(
        7,
        10,
        Some(written(10, MetalFxEffectState::OutputWritten, [640, 360])),
    );
    assert_eq!(hold(&ready, true), None);
    assert_eq!(hold(&ready, false), Some(MetalFxAdaptiveReason::EffectConfigurationMismatch));
    let old = MetalFxEffectSnapshot::from_observation(
        7,
        13,
        Some(written(10, MetalFxEffectState::OutputWritten, [640, 360])),
    );
    assert_eq!(hold(&old, true), Some(MetalFxAdaptiveReason::EffectStale));
    let missing = MetalFxEffectSnapshot::from_observation(7, 10, None);
    assert_eq!(hold(&missing, true), Some(MetalFxAdaptiveReason::EffectStale));
    let pending = MetalFxEffectSnapshot::from_observation(
        7,
        10,
        Some(written(10, MetalFxEffectState::Pending, [640, 360])),
    );
    assert_eq!(
        hold(&pending, true),
        Some(MetalFxAdaptiveReason::EffectNotReady(MetalFxEffectState::Pending))
    );
    let native = MetalFxEffectSnapshot::from_observation(
        7,
        10,
        Some(written(10, MetalFxEffectState::OutputWritten, [1280, 720])),
    );
    assert_eq!(hold(&native, true), Some(MetalFxAdaptiveReason::EffectConfigurationMismatch));
}

#[test]
fn an_epoch_is_due_exactly_when_an_active_input_changed() {
    let view = ViewFingerprint { view_id: 1, window_id: 9, output_size: [1280, 720] };
    let mut epochs = AdaptiveEpochs::new();
    assert_eq!(epochs.last_mode(), None);
    assert!(epochs.would_start_epoch(false, Some(view), MetalFxMode::Temporal, 0));
    epochs.on_active(false, Some(view), MetalFxMode::Temporal, 0);
    assert_eq!(epochs.last_mode(), Some(MetalFxMode::Temporal));
    assert!(!epochs.would_start_epoch(false, Some(view), MetalFxMode::Temporal, 0));
    assert!(epochs.would_start_epoch(true, Some(view), MetalFxMode::Temporal, 0));
    assert!(epochs.would_start_epoch(false, None, MetalFxMode::Temporal, 0));
    assert!(epochs.would_start_epoch(false, Some(view), MetalFxMode::Spatial, 0));
    assert!(epochs.would_start_epoch(false, Some(view), MetalFxMode::Temporal, 1));
}

#[test]
fn a_new_epoch_resets_the_controller_and_old_samples_hold_the_scale() {
    let timing = GovernorTiming {
        settling_time: 250,
        over_budget_for: 500,
        headroom_for: 2000,
        max_sample_age: 250,
    };
    let usable = |at: u64, frame: u64| GovernorObservation {
        now: at,
        epoch: 1,
        frame_id: frame,
        sampled_at: at,
        validity: AdaptiveSampleValidity::ValidatedFrameCost,
        effect_ready: true,
        cost_present: true,
        measurement_finite: true,
        scale_matches: true,
    };
    let overloaded = CostVerdicts {
        trial_without_benefit: false,
        near_no_benefit_cost: false,
        over_budget: true,
        headroom: false,
        upper_fits: true,
        kept_trial_fits: false,
    };
    let view = ViewFingerprint { view_id: 1, window_id: 9, output_size: [1280, 720] };
    let mut epochs = AdaptiveEpochs::new();
    let mut governor = AdaptiveGovernor::new(4, 0, 3);
    assert!(start_epoch_if_due(&mut epochs, &mut governor, true, Some(view), MetalFxMode::Temporal, 0));
    let first = epochs.epoch();
    for step in 1..5u64 {
        if let Intake::Measured(a) = governor.intake(usable(1000 + 100 * step, step), timing).intake {
            governor.decide(a, overloaded, timing);
        }
    }
    assert!(governor.evidence().overload_for > 0);
    assert!(!start_epoch_if_due(&mut epochs, &mut governor, false, Some(view), MetalFxMode::Temporal, 0));
    assert!(governor.evidence().overload_for > 0);
    let resized = ViewFingerprint { output_size: [1600, 900], ..view };
    assert!(start_epoch_if_due(&mut epochs, &mut governor, false, Some(resized), MetalFxMode::Temporal, 0));
    assert_eq!(epochs.epoch(), first + 1);
    assert_eq!(governor.evidence().overload_for, 0);
    assert_eq!(governor.index(), 3);

    let (held, ready) = measured_hold(Ok(resized), None, Some((first, 10)), epochs.epoch(), 10, 4);
    assert_eq!(held, Some(MetalFxAdaptiveReason::SampleEpochMismatch));
    assert!(ready);
    assert_eq!(
        update_reason(held, true, AdaptiveReason::WithinBudget),
        MetalFxAdaptiveReason::SampleEpochMismatch
    );
    let no_cost = GovernorObservation { cost_present: false, ..usable(2000, 20) };
    let out = governor.intake(no_cost, timing);
    assert_eq!(out.intake, Intake::Decided(AdaptiveReason::Unavailable));
    assert_eq!(governor.index(), 3);
}

#[test]
fn the_update_reason_prefers_the_hold_then_the_sample_time() {
    assert_eq!(
        measured_hold(Err(MetalFxAdaptiveReason::NoRenderView), None, None, 1, 1, 4),
        (Some(MetalFxAdaptiveReason::NoRenderView), false)
    );
    let view = ViewFingerprint { view_id: 1, window_id: 9, output_size: [1280, 720] };
    assert_eq!(
        measured_hold(Ok(view), Some(MetalFxAdaptiveReason::EffectStale), Some((1, 1)), 1, 1, 4),
        (Some(MetalFxAdaptiveReason::EffectStale), false)
    );
    assert_eq!(measured_hold(Ok(view), None, Some((1, 1)), 1, 1, 4), (None, true));
    assert_eq!(
        update_reason(None, false, AdaptiveReason::WithinBudget),
        MetalFxAdaptiveReason::Controller(AdaptiveReason::InvalidSample)
    );
    assert_eq!(
        update_reason(None, true, AdaptiveReason::Headroom),
        MetalFxAdaptiveReason::Controller(AdaptiveReason::Headroom)
    );
}
