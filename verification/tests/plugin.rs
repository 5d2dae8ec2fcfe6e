use bevy_metalfx::effect_runtime::CompiledFeatures;
use bevy_metalfx::plugin::{build_plan, BuildPlan};
use bevy_metalfx::MetalFxMode;

const ALL: CompiledFeatures = CompiledFeatures { temporal: true, frame_interpolation: true };
const SPATIAL_ONLY: CompiledFeatures = CompiledFeatures { temporal: false, frame_interpolation: false };

#[test]
fn disabled_mode_still_publishes_its_public_resources() {
    for scale in [1.0_f32, 0.5] {
        let plan = build_plan(true, MetalFxMode::Disabled, scale.to_bits(), false, ALL, true);
        assert_eq!(plan.reported_mode, MetalFxMode::Disabled);
        assert_eq!(plan.applies_requested_scale, scale < 1.0);
        assert_eq!(plan.registers_resolution_override, scale < 1.0);
        assert!(!plan.upscale_pipeline);
    }
    let instrumented = build_plan(true, MetalFxMode::Disabled, 1.0f32.to_bits(), true, ALL, true);
    assert!(instrumented.timing_only_pass);
}

#[test]
fn unavailable_metalfx_reports_native_disabled() {
    let plan = build_plan(false, MetalFxMode::Temporal, 0.5f32.to_bits(), true, ALL, true);
    assert_eq!(
        plan,
        BuildPlan {
            gpu_timing_sink: true,
            reported_mode: MetalFxMode::Disabled,
            applies_requested_scale: false,
            registers_resolution_override: false,
            timing_only_pass: false,
            upscale_pipeline: false,
            temporal_inputs: false,
            frame_timing_mirror: false,
            dual_present: false,
        }
    );
}

#[test]
fn active_modes_install_their_inputs() {
    let temporal = build_plan(true, MetalFxMode::Temporal, 0.5f32.to_bits(), false, ALL, true);
    assert_eq!(temporal.reported_mode, MetalFxMode::Temporal);
    assert!(temporal.upscale_pipeline && temporal.temporal_inputs);
    assert!(!temporal.frame_timing_mirror && !temporal.dual_present);
    let interpolation = build_plan(true, MetalFxMode::FrameInterpolation, 0.5f32.to_bits(), false, ALL, true);
    assert!(interpolation.frame_timing_mirror && interpolation.dual_present);
    let fallback = build_plan(true, MetalFxMode::Temporal, 0.5f32.to_bits(), false, SPATIAL_ONLY, true);
    assert_eq!(fallback.reported_mode, MetalFxMode::Spatial);
    assert!(!fallback.temporal_inputs);
    let spatial = build_plan(true, MetalFxMode::Spatial, 1.0f32.to_bits(), false, SPATIAL_ONLY, true);
    assert!(spatial.applies_requested_scale && spatial.registers_resolution_override);
}

#[test]
fn the_gpu_timing_sink_is_installed_on_every_macos_path() {
    for available in [false, true] {
        for mode in [
            MetalFxMode::Disabled,
            MetalFxMode::Spatial,
            MetalFxMode::Temporal,
            MetalFxMode::FrameInterpolation,
        ] {
            assert!(build_plan(available, mode, 0.5f32.to_bits(), false, ALL, true).gpu_timing_sink);
            assert!(!build_plan(available, mode, 0.5f32.to_bits(), false, ALL, false).gpu_timing_sink);
        }
    }
}
