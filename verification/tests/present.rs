use bevy_metalfx::present::PresentCounters;
use bevy_metalfx::ring::SampleRing;

const RING_CAPACITY: usize = 480;

#[test]
fn displayed_counts_every_frame_while_the_ring_saturates() {
    let mut counters = PresentCounters::new();
    let mut presented = SampleRing::new(RING_CAPACITY);
    let n = RING_CAPACITY + 120;
    for i in 0..n {
        counters.record_presented(false);
        presented.push(1.0 + i as f64 / 120.0);
    }
    let (_, _, displayed, _, _) = counters.counts();
    assert_eq!(
        displayed, n as u64,
        "displayed must count every frame, not saturate with the ring"
    );
    assert_eq!(
        presented.len(),
        RING_CAPACITY,
        "the ring itself is still capped — that is why the counter exists"
    );
}

#[test]
fn reset_clears_the_displayed_counter() {
    let mut counters = PresentCounters::new();
    counters.record_presented(false);
    counters.record_presented(false);
    counters.reset();
    let (_, _, displayed, _, _) = counters.counts();
    assert_eq!(displayed, 0);
}

#[test]
fn dropped_frames_are_counted_without_disturbing_intervals() {
    let mut counters = PresentCounters::new();
    let mut presented = SampleRing::new(RING_CAPACITY);
    presented.push(1.0f64);
    counters.record_presented(false);
    presented.push(1.016);
    counters.record_presented(false);
    counters.record_dropped();
    counters.record_dropped();
    assert_eq!(counters.counts().1, 2);
    assert_eq!(presented.len(), 2);
}

#[test]
fn counters_are_separate_and_cumulative() {
    let mut counters = PresentCounters::new();
    counters.record_encoded();
    counters.record_encoded();
    counters.record_encoded();
    counters.record_dropped();
    counters.record_callback();
    counters.record_callback();
    counters.record_committed();
    counters.record_presented(true);
    counters.record_presented(false);
    assert_eq!(counters.counts(), (3, 1, 2, 2, 1));
    assert_eq!(counters.inversions(), 1);
    counters.reset();
    assert_eq!(counters.counts(), (0, 0, 0, 0, 0));
    assert_eq!(counters.inversions(), 0);
}
