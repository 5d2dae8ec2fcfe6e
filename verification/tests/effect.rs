use bevy_metalfx::effect::MAX_EFFECT_VIEWS;
use bevy_metalfx::{
    EffectRegistry, MetalFxEffectFreshness, MetalFxEffectObservation, MetalFxEffectReason,
    MetalFxEffectState, MetalFxMode,
};
use std::sync::atomic::{AtomicU64, Ordering};

const SECOND: u64 = 1_000_000_000;

/// A process-local monotonic clock in nanoseconds, advancing on every read.
static CLOCK: AtomicU64 = AtomicU64::new(100 * SECOND);
/// Creation-order identities.
static SEQUENCE: AtomicU64 = AtomicU64::new(0);

fn now() -> u64 {
    CLOCK.fetch_add(1_000, Ordering::Relaxed)
}

fn observation(frame: u64, view: u64, state: MetalFxEffectState) -> MetalFxEffectObservation {
    MetalFxEffectObservation::new(
        frame,
        view,
        MetalFxMode::Temporal,
        MetalFxMode::Temporal,
        0.5f32.to_bits(),
        [960, 540],
        [1920, 1080],
        state,
        None,
        now(),
        SEQUENCE.fetch_add(1, Ordering::Relaxed),
    )
}

#[test]
fn pending_encoded_and_output_written_are_distinct_observations() {
    let mut status = EffectRegistry::default();
    for state in [
        MetalFxEffectState::Pending,
        MetalFxEffectState::Encoded,
        MetalFxEffectState::OutputWritten,
    ] {
        let mut next = observation(1, 7, state);
        next.requested_mode = MetalFxMode::FrameInterpolation;
        next.reason = Some(MetalFxEffectReason::FeatureUnavailable);
        assert!(status.publish(next));
        let snapshot = status.snapshot(7, 1);
        assert_eq!(snapshot.state(), state);
        assert_eq!(snapshot.last_observation, Some(next));
    }
}

#[test]
fn new_frame_fallback_replaces_previous_output() {
    let mut status = EffectRegistry::default();
    assert!(status.publish(observation(1, 7, MetalFxEffectState::OutputWritten)));
    for (index, state, reason) in [
        (2, MetalFxEffectState::Pending, MetalFxEffectReason::ScalerPending),
        (3, MetalFxEffectState::Failed, MetalFxEffectReason::ScalerCreationFailed),
        (4, MetalFxEffectState::Disabled, MetalFxEffectReason::ModeDisabled),
        (5, MetalFxEffectState::Unavailable, MetalFxEffectReason::UnsupportedPlatform),
        (6, MetalFxEffectState::NoRender, MetalFxEffectReason::NoRenderView),
    ] {
        let mut next = observation(index, 7, state);
        next.effective_mode = MetalFxMode::Disabled;
        next.reason = Some(reason);
        assert!(status.publish(next));
        let snapshot = status.snapshot(7, index);
        assert_eq!(snapshot.state(), state);
        let latest = snapshot.last_observation.unwrap();
        assert_eq!(latest.reason, Some(reason));
        assert_eq!(latest.effective_mode, MetalFxMode::Disabled);
    }
}

#[test]
fn missing_and_stale_views_do_not_report_active_output() {
    let mut status = EffectRegistry::default();
    let missing = status.snapshot(7, 10);
    assert_eq!(missing.frame_id, 10);
    assert_eq!(missing.view_id, 7);
    assert_eq!(missing.freshness, MetalFxEffectFreshness::NeverObserved);
    assert_eq!(missing.state(), MetalFxEffectState::NoRender);
    assert_eq!(missing.age_frames(), None);
    assert_eq!(missing.wall_age(now()), None);
    assert!(!missing.is_fresh(1, SECOND, now()));

    assert!(status.publish(observation(8, 7, MetalFxEffectState::OutputWritten)));
    let stale = status.snapshot(7, 10);
    assert_eq!(stale.freshness, MetalFxEffectFreshness::Stale { age_frames: 2 });
    assert_eq!(stale.age_frames(), Some(2));
    assert_eq!(stale.state(), MetalFxEffectState::NoRender);
    assert_eq!(
        stale.last_observation.unwrap().state,
        MetalFxEffectState::OutputWritten
    );
}

#[test]
fn readers_accept_only_explicit_frame_lag_and_wall_age_bounds() {
    let mut status = EffectRegistry::default();
    assert!(status.publish(observation(8, 7, MetalFxEffectState::OutputWritten)));
    let current = status.snapshot(7, 8);
    assert_eq!(current.age_frames(), Some(0));
    assert!(current.is_fresh(0, 10 * SECOND, now()));
    let lagged = status.snapshot(7, 9);
    assert!(!lagged.is_fresh(0, 10 * SECOND, now()));
    assert!(lagged.is_fresh(1, 10 * SECOND, now()));

    let mut old = observation(10, 7, MetalFxEffectState::OutputWritten);
    old.observed_at = now() - 10 * SECOND;
    assert!(status.publish(old));
    let stalled = status.snapshot(7, 10);
    assert_eq!(stalled.freshness, MetalFxEffectFreshness::Current);
    assert!(!stalled.is_fresh(1, SECOND, now()));
    assert!(stalled.wall_age(now()).unwrap() >= 10 * SECOND);
}

#[test]
fn future_observations_are_not_fresh_for_an_earlier_frame() {
    let mut status = EffectRegistry::default();
    assert!(status.publish(observation(10, 7, MetalFxEffectState::Encoded)));
    let future = status.snapshot(7, 9);
    assert_eq!(future.freshness, MetalFxEffectFreshness::Future { ahead_frames: 1 });
    assert_eq!(future.age_frames(), None);
    assert_eq!(future.state(), MetalFxEffectState::NoRender);
    assert!(!future.is_fresh(u64::MAX, u64::MAX, now()));
}

#[test]
fn delayed_old_frames_cannot_replace_newer_observations() {
    let mut status = EffectRegistry::default();
    assert!(status.publish(observation(10, 7, MetalFxEffectState::OutputWritten)));
    assert!(!status.publish(observation(9, 7, MetalFxEffectState::Pending)));
    assert_eq!(status.snapshot(7, 10).state(), MetalFxEffectState::OutputWritten);
}

#[test]
fn delayed_events_within_a_frame_cannot_replace_later_events() {
    let mut status = EffectRegistry::default();
    let mut earlier = observation(10, 7, MetalFxEffectState::Pending);
    earlier.observed_at = now() - SECOND;
    assert!(status.publish(observation(10, 7, MetalFxEffectState::OutputWritten)));
    assert!(!status.publish(earlier));
    assert_eq!(status.snapshot(7, 10).state(), MetalFxEffectState::OutputWritten);
}

#[test]
fn events_with_equal_clock_timestamps_keep_creation_order() {
    let mut status = EffectRegistry::default();
    let earlier = observation(10, 7, MetalFxEffectState::Pending);
    let mut later = observation(10, 7, MetalFxEffectState::OutputWritten);
    later.observed_at = earlier.observed_at;
    assert!(status.publish(later));
    assert!(!status.publish(earlier));
    assert_eq!(status.snapshot(7, 10).state(), MetalFxEffectState::OutputWritten);
}

#[test]
fn resource_clones_share_observations_without_mixing_views() {
    // One registry stands behind both worlds' handles.
    let mut registry = EffectRegistry::default();
    assert!(registry.publish(observation(10, 9, MetalFxEffectState::OutputWritten)));
    assert!(registry.publish(observation(10, 7, MetalFxEffectState::Failed)));
    assert_eq!(registry.snapshot(9, 10).state(), MetalFxEffectState::OutputWritten);
    assert_eq!(registry.snapshot(7, 10).state(), MetalFxEffectState::Failed);
    let snapshots = registry.snapshots(10);
    assert_eq!(snapshots.iter().map(|s| s.view_id).collect::<Vec<_>>(), vec![7, 9]);
}

#[test]
fn retained_views_are_bounded_and_old_publications_cannot_evict_newer_views() {
    let mut status = EffectRegistry::default();
    for view in 0..=MAX_EFFECT_VIEWS as u64 {
        assert!(status.publish(observation(view + 1, view, MetalFxEffectState::Encoded)));
    }
    assert_eq!(status.snapshots(100).len(), MAX_EFFECT_VIEWS);
    assert_eq!(status.snapshot(0, 100).freshness, MetalFxEffectFreshness::NeverObserved);
    assert!(!status.publish(observation(1, 0, MetalFxEffectState::OutputWritten)));
    assert_eq!(status.snapshots(100).len(), MAX_EFFECT_VIEWS);
    assert!(status.publish(observation(100, 1, MetalFxEffectState::OutputWritten)));
    assert_eq!(status.snapshots(100).len(), MAX_EFFECT_VIEWS);
    assert_eq!(status.snapshot(1, 100).state(), MetalFxEffectState::OutputWritten);
}

#[test]
fn accepted_publication_reads_back_for_its_frame() {
    let mut status = EffectRegistry::new();
    let written = observation(42, 3, MetalFxEffectState::OutputWritten);
    assert!(status.publish(written));
    let snapshot = status.snapshot(3, 42);
    assert_eq!(snapshot.freshness, MetalFxEffectFreshness::Current);
    assert_eq!(snapshot.state(), MetalFxEffectState::OutputWritten);
    assert_eq!(snapshot.last_observation, Some(written));
    assert_eq!(status.len(), 1);
}

#[test]
fn eviction_removes_the_earliest_decision_first_by_view_order_on_ties() {
    let mut status = EffectRegistry::new();
    let shared_time = now();
    for view in 0..MAX_EFFECT_VIEWS as u64 {
        let mut o = observation(5, view, MetalFxEffectState::Encoded);
        o.observed_at = shared_time;
        o.sequence = 7;
        assert!(status.publish(o));
    }
    // Every retained observation has the same identity; the lowest view goes first.
    assert!(status.publish(observation(6, 1000, MetalFxEffectState::Encoded)));
    assert_eq!(status.snapshot(0, 6).freshness, MetalFxEffectFreshness::NeverObserved);
    assert_eq!(status.snapshot(1, 6).freshness, MetalFxEffectFreshness::Stale { age_frames: 1 });
    let views: Vec<u64> = status.snapshots(6).iter().map(|s| s.view_id).collect();
    assert_eq!(views.len(), MAX_EFFECT_VIEWS);
    assert!(views.windows(2).all(|w| w[0] < w[1]));
    assert_eq!(*views.last().unwrap(), 1000);
}

#[test]
fn is_before_orders_by_frame_time_then_creation() {
    let a = observation(1, 7, MetalFxEffectState::Pending);
    let b = observation(1, 7, MetalFxEffectState::Pending);
    assert!(a.is_before(&b));
    assert!(!b.is_before(&a));
    assert!(!a.is_before(&a));
    let mut c = b;
    c.frame_id = 0;
    c.observed_at = u64::MAX;
    assert!(c.is_before(&a));
    assert_eq!(b.sequence(), a.sequence() + 1);
}
