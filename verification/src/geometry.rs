//! The geometry table and the per-primitive attribute and index layout.
//!
//! The table is a fixed catalog of primitive instances drawn every frame.
//! Each primitive contributes a block of 32-bit attribute words at the
//! current cursor of the frame's attribute region, and a run of packed index
//! words that point back at that block:
//!
//! - a rectangle contributes the 4 words `{x, y, w, h}` and 6 indices in
//!   winding order 0,1,2,2,3,0 over its 4 logical corners, all carrying the
//!   block's word offset;
//! - a triangle contributes 3 vertices of 3 words `{x, y, packed-color}`
//!   each, and 3 indices with corner id 0, one per vertex, each carrying
//!   that vertex's own word offset.
//!
//! Coordinates are pixel-space integers; the unverified shell presents each
//! coordinate word to the GPU as the 32-bit float of that value, and color
//! words as their raw bit pattern.

use crate::encoding::{spec_encode, spec_field_corner, spec_field_offset, spec_field_tag,
    spec_kind_of_tag, PrimitiveKind, OFFSET_MAX};
use vstd::prelude::*;

verus! {

/// One 32-bit attribute word, tagged with how the GPU reads it.
#[derive(Clone, Copy, Debug, PartialEq, Eq, Structural)]
pub enum Word {
    /// A pixel coordinate or extent, presented as the float of this value.
    Px(u32),
    /// A raw bit pattern (a packed color), presented unchanged.
    Raw(u32),
}

/// One triangle vertex: pixel position and packed RGBA color.
#[derive(Clone, Copy, Debug, PartialEq, Eq, Structural)]
pub struct TriVertex {
    pub x: u32,
    pub y: u32,
    pub color: u32,
}

/// One primitive instance of the geometry table.
#[derive(Clone, Copy, Debug, PartialEq, Eq, Structural)]
pub enum Primitive {
    /// An axis-aligned rectangle: top-left corner and extent, in pixels.
    Rectangle { x: u32, y: u32, width: u32, height: u32 },
    /// A triangle with three colored vertices.
    Triangle { v0: TriVertex, v1: TriVertex, v2: TriVertex },
}

impl Primitive {
    /// The kind tag a primitive's indices carry.
    pub open spec fn kind(self) -> PrimitiveKind {
        match self {
            Primitive::Rectangle { .. } => PrimitiveKind::Rectangle,
            Primitive::Triangle { .. } => PrimitiveKind::Triangle,
        }
    }
}

/// The attribute words a primitive writes at its block.
pub open spec fn payload_words(p: Primitive) -> Seq<Word> {
    match p {
        Primitive::Rectangle { x, y, width, height } => seq![
            Word::Px(x),
            Word::Px(y),
            Word::Px(width),
            Word::Px(height),
        ],
        Primitive::Triangle { v0, v1, v2 } => seq![
            Word::Px(v0.x),
            Word::Px(v0.y),
            Word::Raw(v0.color),
            Word::Px(v1.x),
            Word::Px(v1.y),
            Word::Raw(v1.color),
            Word::Px(v2.x),
            Word::Px(v2.y),
            Word::Raw(v2.color),
        ],
    }
}

/// How many index words a primitive emits: 6 for a rectangle, 3 for a
/// triangle.
pub open spec fn index_count(p: Primitive) -> int {
    match p {
        Primitive::Rectangle { .. } => 6,
        Primitive::Triangle { .. } => 3,
    }
}

/// The packed index words a primitive emits when its attribute block starts
/// at word offset `base` of the attribute region.
pub open spec fn emitted_indices(p: Primitive, base: int) -> Seq<u32> {
    match p {
        Primitive::Rectangle { .. } => seq![
            spec_encode(PrimitiveKind::Rectangle, 0, base as u32),
            spec_encode(PrimitiveKind::Rectangle, 1, base as u32),
            spec_encode(PrimitiveKind::Rectangle, 2, base as u32),
            spec_encode(PrimitiveKind::Rectangle, 2, base as u32),
            spec_encode(PrimitiveKind::Rectangle, 3, base as u32),
            spec_encode(PrimitiveKind::Rectangle, 0, base as u32),
        ],
        Primitive::Triangle { .. } => seq![
            spec_encode(PrimitiveKind::Triangle, 0, base as u32),
            spec_encode(PrimitiveKind::Triangle, 0, (base + 3) as u32),
            spec_encode(PrimitiveKind::Triangle, 0, (base + 6) as u32),
        ],
    }
}

/// Law: rectangle emission.  A rectangle whose block starts at `base` emits
/// exactly 6 indices; they wind over the 4 logical corners in the order
/// 0,1,2,2,3,0, every corner id 0..=3 appears, and every index carries the
/// rectangle kind and the block's offset `base`.
pub proof fn lemma_rectangle_emission(p: Primitive, base: int)
    requires
        p is Rectangle,
        0 <= base <= OFFSET_MAX,
    ensures
        emitted_indices(p, base).len() == 6,
        forall|j: int|
            0 <= j < 6 ==> spec_field_offset(#[trigger] emitted_indices(p, base)[j])
                == base,
        forall|j: int|
            0 <= j < 6 ==> spec_kind_of_tag(
                spec_field_tag(#[trigger] emitted_indices(p, base)[j]),
            ) == Some(PrimitiveKind::Rectangle),
        spec_field_corner(emitted_indices(p, base)[0]) == 0,
        spec_field_corner(emitted_indices(p, base)[1]) == 1,
        spec_field_corner(emitted_indices(p, base)[2]) == 2,
        spec_field_corner(emitted_indices(p, base)[3]) == 2,
        spec_field_corner(emitted_indices(p, base)[4]) == 3,
        spec_field_corner(emitted_indices(p, base)[5]) == 0,
        exists|j: int|
            0 <= j < 6 && spec_field_corner(#[trigger] emitted_indices(p, base)[j]) == 0,
        exists|j: int|
            0 <= j < 6 && spec_field_corner(#[trigger] emitted_indices(p, base)[j]) == 1,
        exists|j: int|
            0 <= j < 6 && spec_field_corner(#[trigger] emitted_indices(p, base)[j]) == 2,
        exists|j: int|
            0 <= j < 6 && spec_field_corner(#[trigger] emitted_indices(p, base)[j]) == 3,
{
    crate::encoding::lemma_index_round_trip(PrimitiveKind::Rectangle, 0, base as u32);
    crate::encoding::lemma_index_round_trip(PrimitiveKind::Rectangle, 1, base as u32);
    crate::encoding::lemma_index_round_trip(PrimitiveKind::Rectangle, 2, base as u32);
    crate::encoding::lemma_index_round_trip(PrimitiveKind::Rectangle, 3, base as u32);
    assert(spec_field_corner(emitted_indices(p, base)[0]) == 0);
    assert(spec_field_corner(emitted_indices(p, base)[1]) == 1);
    assert(spec_field_corner(emitted_indices(p, base)[2]) == 2);
    assert(spec_field_corner(emitted_indices(p, base)[4]) == 3);
}

/// Law: triangle emission.  A triangle whose block starts at `base` emits
/// exactly 3 indices; each carries corner id 0 and the triangle kind, and
/// their offsets `base`, `base + 3` and `base + 6` are pairwise distinct,
/// one per vertex block.
pub proof fn lemma_triangle_emission(p: Primitive, base: int)
    requires
        p is Triangle,
        0 <= base,
        base + 6 <= OFFSET_MAX,
    ensures
        emitted_indices(p, base).len() == 3,
        forall|j: int|
            0 <= j < 3 ==> spec_field_corner(#[trigger] emitted_indices(p, base)[j]) == 0,
        forall|j: int|
            0 <= j < 3 ==> spec_kind_of_tag(
                spec_field_tag(#[trigger] emitted_indices(p, base)[j]),
            ) == Some(PrimitiveKind::Triangle),
        spec_field_offset(emitted_indices(p, base)[0]) == base,
        spec_field_offset(emitted_indices(p, base)[1]) == base + 3,
        spec_field_offset(emitted_indices(p, base)[2]) == base + 6,
        forall|j: int, k: int|
            0 <= j < 3 && 0 <= k < 3 && j != k ==> spec_field_offset(
                #[trigger] emitted_indices(p, base)[j],
            ) != spec_field_offset(#[trigger] emitted_indices(p, base)[k]),
{
    crate::encoding::lemma_index_round_trip(PrimitiveKind::Triangle, 0, base as u32);
    crate::encoding::lemma_index_round_trip(PrimitiveKind::Triangle, 0, (base + 3) as u32);
    crate::encoding::lemma_index_round_trip(PrimitiveKind::Triangle, 0, (base + 6) as u32);
}

/// Packed RGBA color of the first demo-triangle vertex: opaque red.
pub const COLOR_RED: u32 = 0xFF00_00FF;

/// Packed RGBA color of the second demo-triangle vertex: opaque green.
pub const COLOR_GREEN: u32 = 0xFF00_FF00;

/// Packed RGBA color of the third demo-triangle vertex: opaque blue.
pub const COLOR_BLUE: u32 = 0xFFFF_0000;

/// The fixed geometry table for a `w` by `h` viewport: one rectangle at
/// (50, 150) of extent 200 by 120, then one triangle whose vertices sit at
/// fixed fractions of the viewport (top middle, lower left quarter, lower
/// right quarter), colored red, green and blue.
pub open spec fn spec_scene(w: u32, h: u32) -> Seq<Primitive> {
    seq![
        Primitive::Rectangle { x: 50, y: 150, width: 200, height: 120 },
        Primitive::Triangle {
            v0: TriVertex { x: (w as int / 2) as u32, y: (h as int / 4) as u32, color: COLOR_RED },
            v1: TriVertex {
                x: (w as int / 4) as u32,
                y: (h as int * 3 / 4) as u32,
                color: COLOR_GREEN,
            },
            v2: TriVertex {
                x: (w as int * 3 / 4) as u32,
                y: (h as int * 3 / 4) as u32,
                color: COLOR_BLUE,
            },
        },
    ]
}

/// Builds the geometry table for a `w` by `h` viewport.
pub fn scene(w: u32, h: u32) -> (s: Vec<Primitive>)
    ensures
        s@ == spec_scene(w, h),
{
    let half_w = w / 2;
    let quarter_w = w / 4;
    let quarter_h = h / 4;
    let three_quarter_w = ((w as u64) * 3 / 4) as u32;
    let three_quarter_h = ((h as u64) * 3 / 4) as u32;
    let mut s: Vec<Primitive> = Vec::new();
    s.push(Primitive::Rectangle { x: 50, y: 150, width: 200, height: 120 });
    s.push(
        Primitive::Triangle {
            v0: TriVertex { x: half_w, y: quarter_h, color: COLOR_RED },
            v1: TriVertex { x: quarter_w, y: three_quarter_h, color: COLOR_GREEN },
            v2: TriVertex { x: three_quarter_w, y: three_quarter_h, color: COLOR_BLUE },
        },
    );
    proof {
        assert(s@ =~= spec_scene(w, h));
    }
    s
}

} // verus!
