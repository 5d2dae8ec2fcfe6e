//! What the plugin installs for a configuration.
//!
//! The plugin promises that its public resources exist on every path,
//! including the ones on which it disables itself, and that they report the
//! effective values rather than the requested ones: with MetalFX unavailable
//! no resolution override is applied, so the reported scale really is 1.0
//! and the reported mode is `Disabled`.

use crate::effect_runtime::{f32_bits_below_one, scale_bits_below_one, CompiledFeatures};
use crate::mode::MetalFxMode;
use vstd::prelude::*;

verus! {

/// The resources and systems a plugin configuration installs.
#[derive(Clone, Copy, Debug, PartialEq, Eq, Structural)]
pub struct BuildPlan {
    /// Whether the shared GPU-timing sink is installed in both worlds. It is
    /// installed on every path on macOS, inactive ones included: a control
    /// arm that reports nothing cannot be told from one that reports zero.
    pub gpu_timing_sink: bool,
    /// The mode the plugin reports as in effect.
    pub reported_mode: MetalFxMode,
    /// Whether the reported render scale is the requested one (else 1.0).
    pub applies_requested_scale: bool,
    /// Whether the main-pass resolution override is registered.
    pub registers_resolution_override: bool,
    /// Whether the Disabled arm submits an empty timed command buffer.
    pub timing_only_pass: bool,
    /// Whether the MetalFX pass, its configuration and history reset are installed.
    pub upscale_pipeline: bool,
    /// Whether cameras receive prepasses and the jitter system runs.
    pub temporal_inputs: bool,
    /// Whether the frame delta is mirrored for frame interpolation.
    pub frame_timing_mirror: bool,
    /// Whether the owned presentation layer is captured.
    pub dual_present: bool,
}

/// The plan for a plugin configuration. `available` says whether MetalFX
/// exists at runtime; `scale_bits` is the bit pattern of the requested
/// `f32` render scale; `timing_sink` whether the host supplied a GPU-timing
/// sink; `on_macos` whether the build targets macOS.
pub open spec fn build_plan_spec(
    available: bool,
    mode: MetalFxMode,
    scale_bits: u32,
    timing_sink: bool,
    features: CompiledFeatures,
    on_macos: bool,
) -> BuildPlan {
    let idle = BuildPlan {
        gpu_timing_sink: on_macos,
        reported_mode: MetalFxMode::Disabled,
        applies_requested_scale: false,
        registers_resolution_override: false,
        timing_only_pass: false,
        upscale_pipeline: false,
        temporal_inputs: false,
        frame_timing_mirror: false,
        dual_present: false,
    };
    if !available {
        idle
    } else if mode == MetalFxMode::Disabled {
        let reduced = f32_bits_below_one(scale_bits);
        BuildPlan {
            applies_requested_scale: reduced,
            registers_resolution_override: reduced,
            timing_only_pass: timing_sink,
            ..idle
        }
    } else {
        let temporal_like = mode == MetalFxMode::Temporal || mode
            == MetalFxMode::FrameInterpolation;
        BuildPlan {
            gpu_timing_sink: on_macos,
            reported_mode: if temporal_like && !features.temporal {
                MetalFxMode::Spatial
            } else {
                mode
            },
            applies_requested_scale: true,
            registers_resolution_override: true,
            timing_only_pass: false,
            upscale_pipeline: true,
            temporal_inputs: temporal_like && features.temporal,
            frame_timing_mirror: mode == MetalFxMode::FrameInterpolation,
            dual_present: mode == MetalFxMode::FrameInterpolation && features.frame_interpolation,
        }
    }
}

/// Decide what the plugin installs.
pub fn build_plan(
    available: bool,
    mode: MetalFxMode,
    scale_bits: u32,
    timing_sink: bool,
    features: CompiledFeatures,
    on_macos: bool,
) -> (r: BuildPlan)
    ensures
        r == build_plan_spec(available, mode, scale_bits, timing_sink, features, on_macos),
        r.gpu_timing_sink == on_macos,
        r.temporal_inputs <==> (available && (mode == MetalFxMode::Temporal || mode
            == MetalFxMode::FrameInterpolation) && features.temporal),
{
    let idle = BuildPlan {
        gpu_timing_sink: on_macos,
        reported_mode: MetalFxMode::Disabled,
        applies_requested_scale: false,
        registers_resolution_override: false,
        timing_only_pass: false,
        upscale_pipeline: false,
        temporal_inputs: false,
        frame_timing_mirror: false,
        dual_present: false,
    };
    if !available {
        return idle;
    }
    if mode == MetalFxMode::Disabled {
        let reduced = scale_bits_below_one(scale_bits);
        return BuildPlan {
            applies_requested_scale: reduced,
            registers_resolution_override: reduced,
            timing_only_pass: timing_sink,
            ..idle
        };
    }
    let temporal_like = mode == MetalFxMode::Temporal || mode == MetalFxMode::FrameInterpolation;
    BuildPlan {
        gpu_timing_sink: on_macos,
        reported_mode: if temporal_like && !features.temporal {
            MetalFxMode::Spatial
        } else {
            mode
        },
        applies_requested_scale: true,
        registers_resolution_override: true,
        timing_only_pass: false,
        upscale_pipeline: true,
        temporal_inputs: temporal_like && features.temporal,
        frame_timing_mirror: mode == MetalFxMode::FrameInterpolation,
        dual_present: mode == MetalFxMode::FrameInterpolation && features.frame_interpolation,
    }
}

/// On every path on which the plugin is inactive it still reports a mode,
/// and that mode is `Disabled`; a reduced scale is reported only where the
/// resolution override that applies it is registered.
pub proof fn law_inactive_plugin_reports_disabled(
    available: bool,
    mode: MetalFxMode,
    scale_bits: u32,
    timing_sink: bool,
    features: CompiledFeatures,
    on_macos: bool,
)
    requires
        !available || mode == MetalFxMode::Disabled,
    ensures
        build_plan_spec(available, mode, scale_bits, timing_sink, features, on_macos).reported_mode
            == MetalFxMode::Disabled,
        !build_plan_spec(available, mode, scale_bits, timing_sink, features, on_macos).upscale_pipeline,
        build_plan_spec(available, mode, scale_bits, timing_sink, features, on_macos).applies_requested_scale
            == build_plan_spec(
            available,
            mode,
            scale_bits,
            timing_sink,
            features,
            on_macos,
        ).registers_resolution_override,
{
}

/// Temporal inputs (the depth and motion-vector prepasses and the jitter
/// system) are installed exactly for an available temporal or
/// frame-interpolation mode in a build with the temporal path: never for
/// spatial or disabled upscaling, which have no accumulator to cancel the
/// jitter.
pub proof fn law_temporal_inputs_only_for_temporal_modes(
    available: bool,
    mode: MetalFxMode,
    scale_bits: u32,
    timing_sink: bool,
    features: CompiledFeatures,
    on_macos: bool,
)
    ensures
        build_plan_spec(available, mode, scale_bits, timing_sink, features, on_macos).temporal_inputs
            <==> (available && (mode == MetalFxMode::Temporal || mode
            == MetalFxMode::FrameInterpolation) && features.temporal),
        mode == MetalFxMode::Spatial || mode == MetalFxMode::Disabled ==> !build_plan_spec(
            available,
            mode,
            scale_bits,
            timing_sink,
            features,
            on_macos,
        ).temporal_inputs,
{
}

} // verus!
