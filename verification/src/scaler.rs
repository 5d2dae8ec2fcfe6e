//! Scaler lifecycle decisions of the MetalFX pass.
//!
//! Spatial scalers are created synchronously. Temporal scalers (and the
//! scaler behind frame interpolation) compile ML pipelines and are created on
//! a background thread; the pass polls for the result each frame and skips
//! the frame meanwhile. A scaler is keyed by its input and output dimensions.
//! The renderer performs every creation, poll and texture allocation these
//! decisions call for.

use crate::mode::MetalFxMode;
use vstd::prelude::*;

verus! {

/// The identity a cached scaler is built for: the view it serves, its input
/// and output dimensions, the color format it reads and writes (a code the
/// renderer assigns to each texture format), and its mode. A scaler serves a
/// frame only when all of them match.
#[derive(Clone, Copy, Debug, PartialEq, Eq, Structural)]
pub struct ScalerKey {
    pub view_id: u64,
    pub input_w: u32,
    pub input_h: u32,
    pub output_w: u32,
    pub output_h: u32,
    pub format: u32,
    pub mode: MetalFxMode,
}

/// Whether two keys name the same scaler identity.
pub fn same_key(a: &ScalerKey, b: &ScalerKey) -> (r: bool)
    ensures
        r == (*a == *b),
{
    a.view_id == b.view_id && a.input_w == b.input_w && a.input_h == b.input_h && a.output_w
        == b.output_w && a.output_h == b.output_h && a.format == b.format && a.mode == b.mode
}

/// The first decision of a frame about its scaler.
#[derive(Clone, Copy, Debug, PartialEq, Eq, Structural)]
pub enum ScalerCheck {
    /// The cached scaler matches: encode with it.
    Ready,
    /// A background creation for these dimensions is in flight: poll it.
    PollPending,
    /// A creation or a cached scaler for another identity exists: drop both,
    /// then create one for this identity. A resize, or a change of view,
    /// format or mode, always recreates.
    DiscardAndCreate,
    /// Nothing is cached or pending: create one for these dimensions.
    Create,
}

/// Decide what a frame does about its scaler, given the cached and pending
/// keys and the key this frame needs, so that afterwards the cache holds a
/// scaler usable at these dimensions or one is being made for them.
pub fn check_scaler(cached: Option<ScalerKey>, pending: Option<ScalerKey>, requested: ScalerKey) -> (r:
    ScalerCheck)
    ensures
        cached == Some(requested) ==> r == ScalerCheck::Ready,
        cached != Some(requested) && pending == Some(requested) ==> r == ScalerCheck::PollPending,
        cached != Some(requested) && pending != Some(requested) && (cached is Some
            || pending is Some) ==> r == ScalerCheck::DiscardAndCreate,
        cached is None && pending is None ==> r == ScalerCheck::Create,
{
    if let Some(c) = cached {
        if same_key(&c, &requested) {
            return ScalerCheck::Ready;
        }
    }
    match pending {
        Some(p) => if same_key(&p, &requested) {
            ScalerCheck::PollPending
        } else {
            ScalerCheck::DiscardAndCreate
        },
        None => if cached.is_none() {
            ScalerCheck::Create
        } else {
            ScalerCheck::DiscardAndCreate
        },
    }
}

/// What polling a background creation returned.
#[derive(Clone, Copy, Debug, PartialEq, Eq, Structural)]
pub enum PendingPoll {
    /// A scaler arrived.
    Ready,
    /// Creation finished without a scaler.
    Failed,
    /// Creation is still running.
    Empty,
    /// The creating thread went away without answering.
    Disconnected,
}

/// What a frame does with a poll result.
#[derive(Clone, Copy, Debug, PartialEq, Eq, Structural)]
pub enum PollOutcome {
    /// Adopt the new scaler, allocate its textures, and encode.
    Install,
    /// Forget the pending creation and skip this frame.
    DropAndSkip,
    /// Keep waiting and skip this frame.
    Skip,
}

/// Act on a poll of the pending creation.
pub fn after_poll(poll: PendingPoll) -> (r: PollOutcome)
    ensures
        poll == PendingPoll::Ready ==> r == PollOutcome::Install,
        poll == PendingPoll::Failed || poll == PendingPoll::Disconnected ==> r
            == PollOutcome::DropAndSkip,
        poll == PendingPoll::Empty ==> r == PollOutcome::Skip,
{
    match poll {
        PendingPoll::Ready => PollOutcome::Install,
        PendingPoll::Failed => PollOutcome::DropAndSkip,
        PendingPoll::Empty => PollOutcome::Skip,
        PendingPoll::Disconnected => PollOutcome::DropAndSkip,
    }
}

/// How a scaler for a mode is created.
#[derive(Clone, Copy, Debug, PartialEq, Eq, Structural)]
pub enum CreationPath {
    /// Create now on the render thread; encode this frame if it succeeds.
    Synchronous,
    /// Start a background creation and skip frames until it answers.
    Background,
    /// The mode has no scaler to create.
    Unsupported,
}

/// The creation path of a mode, given whether the temporal path is built.
pub fn creation_path(mode: MetalFxMode, temporal_built: bool) -> (r: CreationPath)
    ensures
        mode == MetalFxMode::Spatial ==> r == CreationPath::Synchronous,
        (mode == MetalFxMode::Temporal || mode == MetalFxMode::FrameInterpolation) ==> r == if temporal_built {
            CreationPath::Background
        } else {
            CreationPath::Unsupported
        },
        mode == MetalFxMode::Disabled ==> r == CreationPath::Unsupported,
{
    match mode {
        MetalFxMode::Spatial => CreationPath::Synchronous,
        MetalFxMode::Temporal | MetalFxMode::FrameInterpolation => if temporal_built {
            CreationPath::Background
        } else {
            CreationPath::Unsupported
        },
        MetalFxMode::Disabled => CreationPath::Unsupported,
    }
}

/// The key a frame's scaler is built for, for view `view_id` in `mode`
/// with color format code `format`: with a dynamic-resolution range the
/// scaler takes full-size input and the content region varies inside it;
/// otherwise it is built for the content size.
pub fn scaler_key(
    view_id: u64,
    content: [u32; 2],
    output: [u32; 2],
    dynamic_resolution: bool,
    format: u32,
    mode: MetalFxMode,
) -> (r: ScalerKey)
    ensures
        r.view_id == view_id,
        r.format == format,
        r.mode == mode,
        r.output_w == output[0],
        r.output_h == output[1],
        dynamic_resolution ==> r.input_w == output[0] && r.input_h == output[1],
        !dynamic_resolution ==> r.input_w == content[0] && r.input_h == content[1],
{
    let (input_w, input_h) = if dynamic_resolution {
        (output[0], output[1])
    } else {
        (content[0], content[1])
    };
    ScalerKey { view_id, input_w, input_h, output_w: output[0], output_h: output[1], format, mode }
}

} // verus!
