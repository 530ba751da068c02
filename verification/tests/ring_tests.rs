use ra4m1_hal::ring::ByteRing;
use ra4m1_hal::ring::RING_CAPACITY;

#[test]
fn ring_starts_empty() {
    let r = ByteRing::new();
    assert!(r.is_empty());
    assert_eq!(r.len(), 0);
    assert_eq!(r.free_space(), RING_CAPACITY);
}

#[test]
fn ring_is_first_in_first_out() {
    let mut r = ByteRing::new();
    for i in 0..10u8 {
        assert!(r.try_push(i));
    }
    assert_eq!(r.len(), 10);
    for i in 0..10u8 {
        assert_eq!(r.pop(), Some(i));
    }
    assert_eq!(r.pop(), None);
}

#[test]
fn full_ring_rejects_and_keeps_contents() {
    let mut r = ByteRing::new();
    for i in 0..RING_CAPACITY {
        assert!(r.try_push(i as u8));
    }
    assert_eq!(r.free_space(), 0);
    assert!(!r.try_push(0xFF));
    assert_eq!(r.len(), RING_CAPACITY);
    // The oldest byte, not the rejected one, comes out first.
    assert_eq!(r.pop(), Some(0));
    assert!(r.try_push(0xEE));
    assert_eq!(r.len(), RING_CAPACITY);
}
