use prima::encoding::{decode_index, PrimitiveKind};
use prima::geometry::{scene, Primitive, TriVertex, Word, COLOR_BLUE, COLOR_GREEN, COLOR_RED};
use prima::writer::{fill_frame, fill_slot, FrameSlot, ATTR_REGION_WORDS, INDEX_REGION_WORDS,
    MATRIX_WORDS};
use prima::error::RenderError;

#[test]
fn end_to_end_800_by_600() {
    let mut slot = FrameSlot::new();
    let count = fill_frame(&mut slot, 800, 600).expect("the fixed table fits");
    assert_eq!(count, 9);
    assert_eq!(slot.indices.len(), 9);

    // Rectangle block {50, 150, 200, 120} at word offset 16 of the
    // attribute region (payload index 0).
    assert_eq!(
        &slot.payload[0..4],
        &[Word::Px(50), Word::Px(150), Word::Px(200), Word::Px(120)],
    );

    // Triangle block at word offset 20: vertices (400, 150), (200, 450),
    // (600, 450) colored red, green, blue.
    assert_eq!(
        &slot.payload[4..13],
        &[
            Word::Px(400),
            Word::Px(150),
            Word::Raw(COLOR_RED),
            Word::Px(200),
            Word::Px(450),
            Word::Raw(COLOR_GREEN),
            Word::Px(600),
            Word::Px(450),
            Word::Raw(COLOR_BLUE),
        ],
    );
    assert_eq!(slot.payload.len(), 13);

    // 6 rectangle indices first: winding 0,1,2,2,3,0, all at offset 16.
    let winding = [0u32, 1, 2, 2, 3, 0];
    for j in 0..6 {
        let d = decode_index(slot.indices[j]).expect("emitted indices decode");
        assert_eq!(d.kind, PrimitiveKind::Rectangle);
        assert_eq!(d.corner, winding[j]);
        assert_eq!(d.offset, 16);
    }

    // 3 triangle indices after: corner 0, offsets 20, 23, 26.
    let tri_offsets = [20u32, 23, 26];
    for j in 0..3 {
        let d = decode_index(slot.indices[6 + j]).expect("emitted indices decode");
        assert_eq!(d.kind, PrimitiveKind::Triangle);
        assert_eq!(d.corner, 0);
        assert_eq!(d.offset, tri_offsets[j]);
    }
}

#[test]
fn fill_is_idempotent() {
    let mut slot = FrameSlot::new();
    fill_frame(&mut slot, 800, 600).unwrap();
    let first = slot.clone();
    fill_frame(&mut slot, 800, 600).unwrap();
    assert_eq!(slot, first);
}

#[test]
fn rectangle_emission_alone() {
    let table = vec![Primitive::Rectangle { x: 1, y: 2, width: 3, height: 4 }];
    let mut slot = FrameSlot::new();
    let count = fill_slot(&mut slot, &table, 640, 480).unwrap();
    assert_eq!(count, 6);
    assert_eq!(slot.payload, vec![Word::Px(1), Word::Px(2), Word::Px(3), Word::Px(4)]);
    let winding = [0u32, 1, 2, 2, 3, 0];
    let mut seen = [false; 4];
    for j in 0..6 {
        let d = decode_index(slot.indices[j]).unwrap();
        assert_eq!(d.kind, PrimitiveKind::Rectangle);
        assert_eq!(d.corner, winding[j]);
        assert_eq!(d.offset, MATRIX_WORDS as u32);
        seen[d.corner as usize] = true;
    }
    // Exactly 4 distinct corners, no gaps.
    assert_eq!(seen, [true; 4]);
}

#[test]
fn triangle_emission_alone() {
    let v = TriVertex { x: 7, y: 8, color: 9 };
    let table = vec![Primitive::Triangle { v0: v, v1: v, v2: v }];
    let mut slot = FrameSlot::new();
    let count = fill_slot(&mut slot, &table, 640, 480).unwrap();
    assert_eq!(count, 3);
    let mut offsets = Vec::new();
    for j in 0..3 {
        let d = decode_index(slot.indices[j]).unwrap();
        assert_eq!(d.kind, PrimitiveKind::Triangle);
        assert_eq!(d.corner, 0);
        offsets.push(d.offset);
    }
    // Three distinct per-vertex offsets.
    assert_eq!(offsets, vec![16, 19, 22]);
}

#[test]
fn scene_depends_on_viewport() {
    let s = scene(800, 600);
    assert_eq!(s.len(), 2);
    assert_eq!(s[0], Primitive::Rectangle { x: 50, y: 150, width: 200, height: 120 });
    assert_eq!(
        s[1],
        Primitive::Triangle {
            v0: TriVertex { x: 400, y: 150, color: COLOR_RED },
            v1: TriVertex { x: 200, y: 450, color: COLOR_GREEN },
            v2: TriVertex { x: 600, y: 450, color: COLOR_BLUE },
        },
    );
    // Integer pixel positions floor at odd viewports.
    let s = scene(801, 601);
    match s[1] {
        Primitive::Triangle { v0, v1, v2 } => {
            assert_eq!((v0.x, v0.y), (400, 150));
            assert_eq!((v1.x, v1.y), (200, 450));
            assert_eq!((v2.x, v2.y), (600, 450));
        },
        _ => panic!("second primitive is the triangle"),
    }
}

#[test]
fn over_capacity_table_is_refused_whole() {
    // 2731 rectangles need 16386 index words, over the 16384-word region,
    // while their 10940 attribute words would still fit.
    let mut table = Vec::new();
    for _ in 0..2731 {
        table.push(Primitive::Rectangle { x: 0, y: 0, width: 1, height: 1 });
    }
    assert!(2731 * 6 > INDEX_REGION_WORDS);
    assert!(MATRIX_WORDS + 2731 * 4 <= ATTR_REGION_WORDS);

    let mut slot = FrameSlot::new();
    fill_frame(&mut slot, 800, 600).unwrap();
    let before = slot.clone();
    let r = fill_slot(&mut slot, &table, 800, 600);
    assert_eq!(r, Err(RenderError::FrameCapacityExceeded));
    // The slot is left exactly as it was.
    assert_eq!(slot, before);

    // A table can also overflow the attribute region alone.
    let mut big = Vec::new();
    for _ in 0..5000 {
        big.push(Primitive::Rectangle { x: 0, y: 0, width: 1, height: 1 });
    }
    assert!(MATRIX_WORDS + 5000 * 4 > ATTR_REGION_WORDS);
    let r = fill_slot(&mut slot, &big, 800, 600);
    assert_eq!(r, Err(RenderError::FrameCapacityExceeded));
    assert_eq!(slot, before);
}

#[test]
fn largest_fitting_table_succeeds() {
    // 2730 rectangles emit exactly 16380 indices and use 10936 attribute
    // words: both regions still fit.
    let mut table = Vec::new();
    for _ in 0..2730 {
        table.push(Primitive::Rectangle { x: 0, y: 0, width: 1, height: 1 });
    }
    let mut slot = FrameSlot::new();
    let count = fill_slot(&mut slot, &table, 800, 600).unwrap();
    assert_eq!(count, 2730 * 6);
    assert_eq!(slot.payload.len(), 2730 * 4);
}
