use benny::latency::LatencyBuffer;
use benny::latency::next_sample;
use benny::latency::sampler_step;

#[test]
fn snapshot_before_first_tick_is_empty() {
    // The status endpoint may read the buffer before the sampler's first
    // tick: it must see an empty array, not an error.
    let buf = LatencyBuffer::new();
    let snap = buf.snapshot_samples();
    assert_eq!(snap.len(), 0);
}

#[test]
fn snapshot_after_first_tick_is_single_element() {
    let mut buf = LatencyBuffer::new();
    let next = sampler_step(&mut buf, 0);
    assert_eq!(next, 1);
    let snap = buf.snapshot_samples();
    assert_eq!(snap, vec![0u64]);
}

#[test]
fn buffer_never_exceeds_capacity() {
    let mut buf = LatencyBuffer::new();
    for v in 0..200u64 {
        buf.append_sample(v);
        assert!(buf.len() <= 60);
    }
    assert_eq!(buf.len(), 60);
}

#[test]
fn buffer_holds_most_recent_sixty_in_order() {
    let mut buf = LatencyBuffer::new();
    for v in 0..61u64 {
        buf.append_sample(v);
    }
    let snap = buf.snapshot_samples();
    let expected: Vec<u64> = (1..=60u64).collect();
    assert_eq!(snap, expected);
}

#[test]
fn append_at_capacity_evicts_oldest_first() {
    let mut buf = LatencyBuffer::new();
    for v in 0..60u64 {
        buf.append_sample(v);
    }
    buf.append_sample(1000);
    let snap = buf.snapshot_samples();
    assert_eq!(snap[0], 1);
    assert_eq!(snap[59], 1000);
    assert_eq!(snap.len(), 60);
}

#[test]
fn snapshot_is_a_copy_in_insertion_order() {
    let mut buf = LatencyBuffer::new();
    buf.append_sample(7);
    buf.append_sample(3);
    buf.append_sample(9);
    let snap = buf.snapshot_samples();
    assert_eq!(snap, vec![7u64, 3, 9]);
    // Appending after the snapshot does not change the copy.
    buf.append_sample(4);
    assert_eq!(snap, vec![7u64, 3, 9]);
}

#[test]
fn sample_counter_saturates_at_maximum() {
    assert_eq!(next_sample(0), 1);
    assert_eq!(next_sample(41), 42);
    assert_eq!(next_sample(u64::MAX), u64::MAX);
}
