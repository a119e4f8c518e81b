use prima::geometry::scene;
use prima::ring::{FrameRing, FRAME_SLOT_COUNT};

#[test]
fn ring_starts_with_two_empty_slots() {
    let ring = FrameRing::new();
    assert_eq!(FRAME_SLOT_COUNT, 2);
    assert_eq!(ring.slot_count(), 2);
    for slot in &ring.slots {
        assert!(slot.matrix.words.is_empty());
        assert!(slot.payload.is_empty());
        assert!(slot.indices.is_empty());
    }
}

#[test]
fn writing_slot_zero_never_mutates_slot_one() {
    let table = scene(800, 600);
    let mut ring = FrameRing::new();
    let other_before = ring.slots[1].clone();
    let count = ring.write_slot(0, &table, 800, 600).unwrap();
    assert_eq!(count, 9);
    assert_eq!(ring.slots[1], other_before);
    assert!(!ring.slots[0].indices.is_empty());

    // And the other way round, with slot 0 already filled.
    let zero_before = ring.slots[0].clone();
    ring.write_slot(1, &table, 800, 600).unwrap();
    assert_eq!(ring.slots[0], zero_before);
}

#[test]
fn slots_written_alike_hold_identical_regions() {
    let table = scene(800, 600);
    let mut ring = FrameRing::new();
    ring.write_slot(0, &table, 800, 600).unwrap();
    ring.write_slot(1, &table, 800, 600).unwrap();
    assert_eq!(ring.slots[0], ring.slots[1]);
}
