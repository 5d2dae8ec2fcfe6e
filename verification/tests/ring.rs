use bevy_metalfx::ring::SampleRing;

/// How many recent GPU-elapsed samples the timing sink retains.
const RING_CAPACITY: usize = 240;

#[test]
fn snapshot_reports_samples_oldest_first_after_wrapping() {
    let mut sink = SampleRing::new(RING_CAPACITY);
    let total = RING_CAPACITY + RING_CAPACITY / 4;
    for i in 0..total {
        sink.push(i as f32);
    }
    let got = sink.snapshot();
    assert_eq!(got.len(), RING_CAPACITY, "the ring must stay at capacity");
    let expected: Vec<f32> = ((total - RING_CAPACITY)..total).map(|i| i as f32).collect();
    assert_eq!(got, expected);
}

#[test]
fn snapshot_is_push_order_before_wrapping() {
    let mut sink = SampleRing::new(RING_CAPACITY);
    for i in 0..8 {
        sink.push(i as f32);
    }
    assert_eq!(sink.snapshot(), vec![0.0, 1.0, 2.0, 3.0, 4.0, 5.0, 6.0, 7.0]);
}

#[test]
fn exactly_full_ring_is_in_push_order() {
    let mut ring = SampleRing::new(4);
    for i in 0..4u64 {
        ring.push(i);
    }
    assert_eq!(ring.snapshot(), vec![0, 1, 2, 3]);
    ring.push(4);
    assert_eq!(ring.snapshot(), vec![1, 2, 3, 4]);
    assert_eq!(ring.len(), 4);
    assert_eq!(ring.capacity(), 4);
}

#[test]
fn clear_empties_but_keeps_capacity() {
    let mut ring = SampleRing::new(3);
    for i in 0..10u32 {
        ring.push(i);
    }
    assert_eq!(ring.snapshot(), vec![7, 8, 9]);
    ring.clear();
    assert_eq!(ring.snapshot(), Vec::<u32>::new());
    assert_eq!(ring.capacity(), 3);
    ring.push(11);
    assert_eq!(ring.snapshot(), vec![11]);
}

#[test]
fn single_slot_ring_keeps_only_the_newest() {
    let mut ring = SampleRing::new(1);
    for i in 0..5i32 {
        ring.push(i);
        assert_eq!(ring.snapshot(), vec![i]);
    }
}
