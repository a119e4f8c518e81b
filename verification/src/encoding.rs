//! Bit-packed per-vertex index encoding.
//!
//! Every index handed to the GPU is one 32-bit word holding three fields.
//! The field widths are fixed by the shift constants below, which are the
//! single source of truth for the layout:
//!
//! ```text
//! [31:26]   [25:24]   [23:0]
//!    |         |         |
//!    |         |         +--- word offset into the attribute region
//!    |         +------------- corner id (rectangles: 0..=3)
//!    +------------------------ primitive kind tag
//! ```
//!
//! so the kind tag has 6 bits, the corner id 2 bits and the offset 24 bits.
//! The vertex shader decodes the same three fields with the same shifts.

use vstd::prelude::*;

verus! {

/// Closed set of primitive kinds drawn by the one generic pipeline.
///
/// Extending it requires matching changes in the index encoding, the
/// primitive writer and the external vertex shader.
#[derive(Clone, Copy, Debug, PartialEq, Eq, Structural)]
pub enum PrimitiveKind {
    Triangle,
    Rectangle,
}

/// Shift of the corner-id field; equals the width of the offset field.
pub const CORNER_SHIFT: u32 = 24;
/// Shift of the kind-tag field.
pub const KIND_SHIFT: u32 = 26;
/// Largest word offset that fits in the offset field.
pub const OFFSET_MAX: u32 = 0xFF_FFFF;
/// Largest corner id that fits in the corner field.
pub const CORNER_MAX: u32 = 3;

/// Numeric tag of a primitive kind, as the shader sees it.
pub open spec fn spec_kind_tag(kind: PrimitiveKind) -> u32 {
    match kind {
        PrimitiveKind::Triangle => 0,
        PrimitiveKind::Rectangle => 1,
    }
}

/// Numeric tag of a primitive kind, as the shader sees it.
#[verifier::when_used_as_spec(spec_kind_tag)]
pub fn kind_tag(kind: PrimitiveKind) -> (tag: u32)
    ensures
        tag == spec_kind_tag(kind),
{
    match kind {
        PrimitiveKind::Triangle => 0,
        PrimitiveKind::Rectangle => 1,
    }
}

/// The primitive kind whose tag is `tag`, if any.
pub open spec fn spec_kind_of_tag(tag: u32) -> Option<PrimitiveKind> {
    if tag == 0 {
        Some(PrimitiveKind::Triangle)
    } else if tag == 1 {
        Some(PrimitiveKind::Rectangle)
    } else {
        None
    }
}

/// The packed 32-bit word for (kind, corner, offset).
pub open spec fn spec_encode(kind: PrimitiveKind, corner: u32, offset: u32) -> u32 {
    (spec_kind_tag(kind) << KIND_SHIFT) | (corner << CORNER_SHIFT) | offset
}

/// Kind-tag field of a packed index word.
pub open spec fn spec_field_tag(word: u32) -> u32 {
    word >> KIND_SHIFT
}

/// Corner-id field of a packed index word.
pub open spec fn spec_field_corner(word: u32) -> u32 {
    (word >> CORNER_SHIFT) & CORNER_MAX
}

/// Offset field of a packed index word.
pub open spec fn spec_field_offset(word: u32) -> u32 {
    word & OFFSET_MAX
}

/// Packs (kind, corner, offset) into one index word.
///
/// The caller must keep each field within its allotted width; a wider value
/// would silently corrupt the neighbouring fields, so it is excluded here.
pub fn encode_index(kind: PrimitiveKind, corner: u32, offset: u32) -> (word: u32)
    requires
        corner <= CORNER_MAX,
        offset <= OFFSET_MAX,
    ensures
        word == spec_encode(kind, corner, offset),
        spec_field_tag(word) == spec_kind_tag(kind),
        spec_field_corner(word) == corner,
        spec_field_offset(word) == offset,
{
    let tag = kind_tag(kind);
    let word = (tag << KIND_SHIFT) | (corner << CORNER_SHIFT) | offset;
    proof {
        lemma_fields_of_encode(tag, corner, offset);
    }
    word
}

/// One decoded index word: the three fields it carries.
#[derive(Clone, Copy, Debug, PartialEq, Eq, Structural)]
pub struct DecodedIndex {
    pub kind: PrimitiveKind,
    pub corner: u32,
    pub offset: u32,
}

/// Unpacks an index word into its three fields.
///
/// Returns `None` exactly when the kind-tag field names no known primitive.
pub fn decode_index(word: u32) -> (r: Option<DecodedIndex>)
    ensures
        match r {
            Some(d) => {
                &&& spec_kind_of_tag(spec_field_tag(word)) == Some(d.kind)
                &&& d.corner == spec_field_corner(word)
                &&& d.offset == spec_field_offset(word)
            },
            None => spec_kind_of_tag(spec_field_tag(word)) is None,
        },
{
    let tag = word >> KIND_SHIFT;
    let corner = (word >> CORNER_SHIFT) & CORNER_MAX;
    let offset = word & OFFSET_MAX;
    let kind = if tag == 0 {
        PrimitiveKind::Triangle
    } else if tag == 1 {
        PrimitiveKind::Rectangle
    } else {
        return None;
    };
    Some(DecodedIndex { kind, corner, offset })
}

/// Field extraction inverts packing, for fields within their widths.
proof fn lemma_fields_of_encode(tag: u32, corner: u32, offset: u32)
    requires
        tag <= 63,
        corner <= 3,
        offset <= 0xFF_FFFF,
    ensures
        ((tag << 26) | (corner << 24) | offset) >> 26 == tag,
        (((tag << 26) | (corner << 24) | offset) >> 24) & 3 == corner,
        ((tag << 26) | (corner << 24) | offset) & 0xFF_FFFF == offset,
{
    assert(((tag << 26) | (corner << 24) | offset) >> 26 == tag) by (bit_vector)
        requires
            tag <= 63,
            corner <= 3,
            offset <= 0xFF_FFFF,
    ;
    assert((((tag << 26) | (corner << 24) | offset) >> 24) & 3 == corner) by (bit_vector)
        requires
            tag <= 63,
            corner <= 3,
            offset <= 0xFF_FFFF,
    ;
    assert(((tag << 26) | (corner << 24) | offset) & 0xFF_FFFF == offset) by (bit_vector)
        requires
            tag <= 63,
            corner <= 3,
            offset <= 0xFF_FFFF,
    ;
}

/// Law: index round-trip.  For every kind, every corner id within its two
/// bits and every offset within its 24 bits, decoding the packed word gives
/// back exactly the fields that were packed.
pub proof fn lemma_index_round_trip(kind: PrimitiveKind, corner: u32, offset: u32)
    requires
        corner <= CORNER_MAX,
        offset <= OFFSET_MAX,
    ensures
        spec_field_tag(spec_encode(kind, corner, offset)) == spec_kind_tag(kind),
        spec_kind_of_tag(spec_field_tag(spec_encode(kind, corner, offset))) == Some(kind),
        spec_field_corner(spec_encode(kind, corner, offset)) == corner,
        spec_field_offset(spec_encode(kind, corner, offset)) == offset,
{
    lemma_fields_of_encode(spec_kind_tag(kind), corner, offset);
}

} // verus!
