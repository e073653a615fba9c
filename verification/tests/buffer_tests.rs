use echo_capture::buffer::{BoundedSampleBuffer, MAX_BUFFER_SAMPLES};

#[test]
fn append_then_drain_returns_everything_in_order() {
    let mut buf = BoundedSampleBuffer::new();
    assert_eq!(buf.len(), 0);
    buf.append(&vec![1, 2, 3]);
    buf.append(&vec![4, 5]);
    assert_eq!(buf.len(), 5);
    let drained = buf.drain();
    assert_eq!(drained, vec![1, 2, 3, 4, 5]);
    assert_eq!(buf.len(), 0);
}

#[test]
fn snapshot_copies_without_mutating() {
    let mut buf = BoundedSampleBuffer::new();
    buf.append(&vec![7, 8, 9]);
    let snap = buf.snapshot();
    assert_eq!(snap, vec![7, 8, 9]);
    assert_eq!(buf.len(), 3);
    let drained = buf.drain();
    assert_eq!(drained, vec![7, 8, 9]);
}

#[test]
fn empty_append_keeps_buffer_unchanged() {
    let mut buf = BoundedSampleBuffer::new();
    buf.append(&vec![]);
    assert_eq!(buf.len(), 0);
    buf.append(&vec![42]);
    buf.append(&vec![]);
    assert_eq!(buf.drain(), vec![42]);
}

#[test]
fn overflow_evicts_oldest_and_caps_length() {
    let mut buf = BoundedSampleBuffer::new();
    // Fill to one sample under capacity, then push three more: the total
    // exceeds capacity by two, so exactly the two oldest samples leave.
    let mut big: Vec<i32> = vec![0; MAX_BUFFER_SAMPLES - 1];
    big[0] = 100;
    big[1] = 101;
    big[2] = 102;
    let last = MAX_BUFFER_SAMPLES - 2;
    big[last] = 999;
    buf.append(&big);
    assert_eq!(buf.len(), MAX_BUFFER_SAMPLES - 1);
    buf.append(&vec![-7, -8, -9]);
    assert_eq!(buf.len(), MAX_BUFFER_SAMPLES);
    let drained = buf.drain();
    assert_eq!(drained.len(), MAX_BUFFER_SAMPLES);
    // The retained samples are the tail of the logical concatenation:
    // big[2..] followed by the new chunk.
    assert_eq!(drained[0], 102);
    assert_eq!(drained[MAX_BUFFER_SAMPLES - 4], 999);
    assert_eq!(
        &drained[MAX_BUFFER_SAMPLES - 3..],
        &[-7, -8, -9]
    );
}

#[test]
fn chunk_exactly_at_capacity_replaces_contents() {
    let mut buf = BoundedSampleBuffer::new();
    buf.append(&vec![1, 2, 3]);
    let big: Vec<i32> = vec![5; MAX_BUFFER_SAMPLES];
    buf.append(&big);
    assert_eq!(buf.len(), MAX_BUFFER_SAMPLES);
    let drained = buf.drain();
    assert_eq!(drained[0], 5);
    assert_eq!(drained[MAX_BUFFER_SAMPLES - 1], 5);
}
