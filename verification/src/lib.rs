//! Verified decision logic of a MetalFX upscaling plugin for Bevy.
//!
//! The library holds the parts of the plugin that decide: which effect
//! observation is current, when a temporal-history reset is owed, which ring
//! slots survive, how control passes fall back, and so on. The GPU, window and
//! ECS plumbing that feeds it plain values lives outside this crate.

pub mod adaptive;
pub mod adaptive_runtime;
pub mod control;
pub mod diagnostic_fault;
pub mod effect;
pub mod effect_runtime;
mod key_order;
pub mod frame_cost;
pub mod frame_timing;
pub mod governor;
pub mod history;
pub mod jitter;
pub mod mode;
pub mod plugin;
pub mod present;
pub mod ring;
pub mod scaler;

pub use diagnostic_fault::{
    injected_receiver, InjectedReceiver, MetalFxDiagnosticFault, ScalerCreationFault,
    ScalerFaultSnapshot,
};
pub use effect::{
    EffectRegistry, MetalFxEffectFreshness, MetalFxEffectObservation, MetalFxEffectReason,
    MetalFxEffectSnapshot, MetalFxEffectState,
};
pub use mode::MetalFxMode;
