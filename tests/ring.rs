use echo_chamber::{Full, SampleRing};

#[test]
fn ring_full_after_capacity_pushes_then_accepts_after_pop() {
    let mut ring = SampleRing::new(3);
    assert_eq!(ring.try_push(1), Ok(()));
    assert_eq!(ring.try_push(2), Ok(()));
    assert_eq!(ring.try_push(3), Ok(()));
    assert_eq!(ring.try_push(4), Err(Full(4)));
    assert_eq!(ring.try_pop(), Some(1));
    assert_eq!(ring.try_push(4), Ok(()));
    assert_eq!(ring.try_push(5), Err(Full(5)));
}

#[test]
fn ring_is_first_in_first_out() {
    let mut ring = SampleRing::new(8);
    for x in [1u32, 2, 3] {
        assert_eq!(ring.try_push(x), Ok(()));
    }
    assert_eq!(ring.try_pop(), Some(1));
    assert_eq!(ring.try_pop(), Some(2));
    assert_eq!(ring.try_pop(), Some(3));
    assert_eq!(ring.try_pop(), None);
}

#[test]
fn ring_pop_on_empty_is_none() {
    let mut ring = SampleRing::new(1);
    assert_eq!(ring.try_pop(), None);
    assert_eq!(ring.peek(), None);
}

#[test]
fn ring_peek_leaves_oldest_in_place() {
    let mut ring = SampleRing::new(4);
    ring.try_push(7).unwrap();
    ring.try_push(9).unwrap();
    assert_eq!(ring.peek(), Some(7));
    assert_eq!(ring.peek(), Some(7));
    assert_eq!(ring.try_pop(), Some(7));
    assert_eq!(ring.peek(), Some(9));
}

#[test]
fn ring_prefill_pushes_silence() {
    let mut ring = SampleRing::new(4);
    ring.try_push(5).unwrap();
    ring.prefill(2);
    assert_eq!(ring.try_push(6), Ok(()));
    assert_eq!(ring.try_push(8), Err(Full(8)));
    assert_eq!(ring.try_pop(), Some(5));
    assert_eq!(ring.try_pop(), Some(0));
    assert_eq!(ring.try_pop(), Some(0));
    assert_eq!(ring.try_pop(), Some(6));
    assert_eq!(ring.try_pop(), None);
}

#[test]
fn latency_ring_holds_silence_then_samples() {
    let mut ring = SampleRing::with_latency(2).unwrap();
    assert_eq!(ring.try_push(7), Ok(()));
    assert_eq!(ring.try_push(8), Ok(()));
    assert_eq!(ring.try_push(9), Err(Full(9)));
    assert_eq!(ring.try_pop(), Some(0));
    assert_eq!(ring.try_pop(), Some(0));
    assert_eq!(ring.try_pop(), Some(7));
}

#[test]
fn latency_ring_refuses_zero_and_overflow() {
    assert!(SampleRing::with_latency(0).is_none());
    assert!(SampleRing::with_latency(usize::MAX / 2 + 1).is_none());
}
