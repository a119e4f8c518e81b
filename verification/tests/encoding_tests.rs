use prima::encoding::{decode_index, encode_index, DecodedIndex, PrimitiveKind, CORNER_MAX,
    KIND_SHIFT, OFFSET_MAX};

#[test]
fn round_trip_every_kind_and_corner() {
    let kinds = [PrimitiveKind::Rectangle, PrimitiveKind::Triangle];
    let offsets: [u32; 5] = [0, 16, 20, 12345, OFFSET_MAX];
    for kind in kinds {
        for corner in 0..=CORNER_MAX {
            for offset in offsets {
                let word = encode_index(kind, corner, offset);
                let decoded = decode_index(word).expect("a packed word decodes");
                assert_eq!(decoded, DecodedIndex { kind, corner, offset });
            }
        }
    }
}

#[test]
fn encode_concrete_words() {
    // Rectangle tag 1 in bits [31:26], corner in [25:24], offset in [23:0].
    assert_eq!(encode_index(PrimitiveKind::Rectangle, 3, 16), 0x0700_0010);
    assert_eq!(encode_index(PrimitiveKind::Rectangle, 0, 16), 0x0400_0010);
    // Triangle tag is 0, so only corner and offset remain.
    assert_eq!(encode_index(PrimitiveKind::Triangle, 0, 20), 0x0000_0014);
    assert_eq!(encode_index(PrimitiveKind::Triangle, 2, 5), 0x0200_0005);
}

#[test]
fn decode_unknown_tag_gives_none() {
    let word = 2u32 << KIND_SHIFT;
    assert!(decode_index(word).is_none());
    assert!(decode_index(u32::MAX).is_none());
}
