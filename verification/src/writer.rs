//! The primitive writer: fills one frame slot from the geometry table.
//!
//! A frame slot owns two fixed-capacity regions of 32-bit words.  The writer
//! first lays the projection matrix into the first 16 words of the attribute
//! region, then walks the geometry table in declaration order: each
//! primitive's attribute words go at the current cursor, its packed indices
//! (pointing back at that cursor) are appended to the index region, and the
//! cursor advances past the words written.  The writer returns the total
//! index count for the frame's one draw call.  A table that does not fit the
//! fixed capacities is refused whole, before anything is written.

use crate::encoding::encode_index;
use crate::error::RenderError;
use crate::geometry::{emitted_indices, index_count, payload_words, scene, spec_scene, Primitive,
    Word};
use crate::projection::{is_ortho, ortho_projection, Projection};
use vstd::prelude::*;

verus! {

/// Byte capacity of each region of a frame slot.
pub const REGION_BYTES: usize = 64 * 1024;

/// Word capacity of the attribute region (matrix words included).
pub const ATTR_REGION_WORDS: usize = REGION_BYTES / 4;

/// Word capacity of the index region.
pub const INDEX_REGION_WORDS: usize = REGION_BYTES / 4;

/// Number of attribute words the projection matrix occupies.
pub const MATRIX_WORDS: usize = 16;

/// One frame's two host-visible regions, in model form: the 16 matrix words,
/// the attribute words written after them, and the index words.  The word at
/// offset `o >= 16` of the attribute region is `payload[o - 16]`.
#[derive(Clone, Debug, PartialEq)]
pub struct FrameSlot {
    pub matrix: Projection,
    pub payload: Vec<Word>,
    pub indices: Vec<u32>,
}

impl FrameSlot {
    /// A slot as allocated at startup, before any frame was written.
    pub fn new() -> (s: FrameSlot)
        ensures
            s.matrix.words@.len() == 0,
            s.payload@.len() == 0,
            s.indices@.len() == 0,
    {
        FrameSlot { matrix: Projection { words: Vec::new() }, payload: Vec::new(), indices: Vec::new() }
    }

    /// The slot holds exactly what one write of `scene` under viewport
    /// (w, h) produces.
    pub open spec fn is_filled(self, scene: Seq<Primitive>, w: u32, h: u32) -> bool {
        &&& is_ortho(self.matrix, w, h)
        &&& self.payload@ == scene_payload(scene)
        &&& self.indices@ == scene_indices(scene, MATRIX_WORDS as int)
    }
}

/// The attribute words of a whole table, in declaration order.
pub open spec fn scene_payload(s: Seq<Primitive>) -> Seq<Word>
    decreases s.len(),
{
    if s.len() == 0 {
        Seq::empty()
    } else {
        payload_words(s[0]) + scene_payload(s.skip(1))
    }
}

/// The index words of a whole table whose first attribute block starts at
/// word offset `base`.
pub open spec fn scene_indices(s: Seq<Primitive>, base: int) -> Seq<u32>
    decreases s.len(),
{
    if s.len() == 0 {
        Seq::empty()
    } else {
        emitted_indices(s[0], base) + scene_indices(s.skip(1), base + payload_words(s[0]).len())
    }
}

/// Total index count of a table.
pub open spec fn scene_index_count(s: Seq<Primitive>) -> int
    decreases s.len(),
{
    if s.len() == 0 {
        0
    } else {
        index_count(s[0]) + scene_index_count(s.skip(1))
    }
}

/// The table fits a frame slot's two fixed-capacity regions.
pub open spec fn scene_fits(s: Seq<Primitive>) -> bool {
    &&& MATRIX_WORDS + scene_payload(s).len() <= ATTR_REGION_WORDS
    &&& scene_index_count(s) <= INDEX_REGION_WORDS
}

/// Appending a primitive appends its attribute words.
proof fn lemma_scene_payload_push(s: Seq<Primitive>, p: Primitive)
    ensures
        scene_payload(s.push(p)) =~= scene_payload(s) + payload_words(p),
    decreases s.len(),
{
    if s.len() == 0 {
        assert(s.push(p).skip(1) =~= Seq::<Primitive>::empty());
        assert(s.push(p)[0] == p);
        assert(scene_payload(s.push(p)) == payload_words(p) + scene_payload(s.push(p).skip(1)));
        assert(scene_payload(s) =~= Seq::<Word>::empty());
    } else {
        assert(s.push(p).skip(1) =~= s.skip(1).push(p));
        lemma_scene_payload_push(s.skip(1), p);
        assert(s.push(p)[0] == s[0]);
        assert(scene_payload(s.push(p)) == payload_words(s[0]) + scene_payload(s.skip(1).push(p)));
        assert(scene_payload(s.skip(1).push(p)) =~= scene_payload(s.skip(1)) + payload_words(p));
    }
}

/// Appending a primitive appends its indices, based at the word offset just
/// past the table's attribute words.
proof fn lemma_scene_indices_push(s: Seq<Primitive>, p: Primitive, base: int)
    ensures
        scene_indices(s.push(p), base) =~= scene_indices(s, base) + emitted_indices(
            p,
            base + scene_payload(s).len(),
        ),
    decreases s.len(),
{
    if s.len() == 0 {
        assert(s.push(p).skip(1) =~= Seq::<Primitive>::empty());
        assert(s.push(p)[0] == p);
        assert(scene_indices(s.push(p), base) == emitted_indices(p, base) + scene_indices(
            s.push(p).skip(1),
            base + payload_words(p).len(),
        ));
        assert(scene_indices(s, base) =~= Seq::<u32>::empty());
        assert(scene_payload(s).len() == 0);
    } else {
        assert(s.push(p).skip(1) =~= s.skip(1).push(p));
        lemma_scene_indices_push(s.skip(1), p, base + payload_words(s[0]).len());
        assert(s.push(p)[0] == s[0]);
        assert(scene_indices(s.push(p), base) == emitted_indices(s[0], base) + scene_indices(
            s.skip(1).push(p),
            base + payload_words(s[0]).len(),
        ));
        assert(scene_payload(s) == payload_words(s[0]) + scene_payload(s.skip(1)));
    }
}

/// Appending a primitive adds its index count.
proof fn lemma_scene_index_count_push(s: Seq<Primitive>, p: Primitive)
    ensures
        scene_index_count(s.push(p)) == scene_index_count(s) + index_count(p),
    decreases s.len(),
{
    if s.len() == 0 {
        assert(s.push(p).skip(1) =~= Seq::<Primitive>::empty());
        assert(s.push(p)[0] == p);
        assert(scene_index_count(s.push(p)) == index_count(p) + scene_index_count(
            s.push(p).skip(1),
        ));
    } else {
        assert(s.push(p).skip(1) =~= s.skip(1).push(p));
        lemma_scene_index_count_push(s.skip(1), p);
        assert(s.push(p)[0] == s[0]);
        assert(scene_index_count(s.push(p)) == index_count(s[0]) + scene_index_count(
            s.skip(1).push(p),
        ));
    }
}

/// A prefix of the table needs no more attribute words than the whole.
proof fn lemma_scene_payload_prefix_le(s: Seq<Primitive>, k: int)
    requires
        0 <= k <= s.len(),
    ensures
        scene_payload(s.take(k)).len() <= scene_payload(s).len(),
    decreases s.len() - k,
{
    if k == s.len() {
        assert(s.take(k) =~= s);
    } else {
        assert(s.take(k + 1) =~= s.take(k).push(s[k]));
        lemma_scene_payload_push(s.take(k), s[k]);
        lemma_scene_payload_prefix_le(s, k + 1);
    }
}

/// A prefix of the table emits no more indices than the whole.
proof fn lemma_scene_index_count_prefix_le(s: Seq<Primitive>, k: int)
    requires
        0 <= k <= s.len(),
    ensures
        scene_index_count(s.take(k)) <= scene_index_count(s),
    decreases s.len() - k,
{
    if k == s.len() {
        assert(s.take(k) =~= s);
    } else {
        assert(s.take(k + 1) =~= s.take(k).push(s[k]));
        lemma_scene_index_count_push(s.take(k), s[k]);
        lemma_scene_index_count_prefix_le(s, k + 1);
    }
}

/// Index counts are never negative.
proof fn lemma_scene_index_count_nonneg(s: Seq<Primitive>)
    ensures
        scene_index_count(s) >= 0,
    decreases s.len(),
{
    if s.len() > 0 {
        lemma_scene_index_count_nonneg(s.skip(1));
    }
}

/// Fills one frame slot from the geometry table under the given viewport:
/// projection matrix first, then every primitive's attribute block and
/// indices in declaration order.  Returns the index count for the draw
/// call.  If the table would overflow either fixed-capacity region, nothing
/// is written, the slot is left exactly as it was, and the writer reports
/// the capacity failure.
pub fn fill_slot(slot: &mut FrameSlot, scene: &Vec<Primitive>, view_w: u32, view_h: u32) -> (r:
    Result<usize, RenderError>)
    requires
        view_w > 0,
        view_h > 0,
    ensures
        match r {
            Ok(n) => {
                &&& scene_fits(scene@)
                &&& final(slot).is_filled(scene@, view_w, view_h)
                &&& final(slot).matrix.wf()
                &&& n == scene_index_count(scene@)
                &&& n == final(slot).indices@.len()
            },
            Err(e) => {
                &&& e == RenderError::FrameCapacityExceeded
                &&& !scene_fits(scene@)
                &&& *final(slot) == *old(slot)
            },
        },
{
    // Capacity pre-pass: refuse a table that does not fit, before writing.
    let mut words: usize = MATRIX_WORDS;
    let mut icount: usize = 0;
    let mut k: usize = 0;
    while k < scene.len()
        invariant
            0 <= k <= scene@.len(),
            words == MATRIX_WORDS + scene_payload(scene@.take(k as int)).len(),
            icount == scene_index_count(scene@.take(k as int)),
            words <= ATTR_REGION_WORDS,
            icount <= INDEX_REGION_WORDS,
        decreases scene@.len() - k,
    {
        let p = scene[k];
        let (pw, pi): (usize, usize) = match p {
            Primitive::Rectangle { .. } => (4, 6),
            Primitive::Triangle { .. } => (9, 3),
        };
        proof {
            assert(scene@.take(k as int + 1) =~= scene@.take(k as int).push(scene@[k as int]));
            lemma_scene_payload_push(scene@.take(k as int), scene@[k as int]);
            lemma_scene_index_count_push(scene@.take(k as int), scene@[k as int]);
            lemma_scene_index_count_nonneg(scene@.take(k as int));
        }
        if ATTR_REGION_WORDS - words < pw {
            proof {
                lemma_scene_payload_prefix_le(scene@, k as int + 1);
            }
            return Err(RenderError::FrameCapacityExceeded);
        }
        if INDEX_REGION_WORDS - icount < pi {
            proof {
                lemma_scene_index_count_prefix_le(scene@, k as int + 1);
            }
            return Err(RenderError::FrameCapacityExceeded);
        }
        words = words + pw;
        icount = icount + pi;
        k = k + 1;
    }
    proof {
        assert(scene@.take(scene@.len() as int) =~= scene@);
    }

    // Write pass: matrix, then each primitive's block and indices.
    let matrix = ortho_projection(view_w, view_h);
    let mut payload: Vec<Word> = Vec::new();
    let mut indices: Vec<u32> = Vec::new();
    let mut i: usize = 0;
    while i < scene.len()
        invariant
            0 <= i <= scene@.len(),
            payload@ =~= scene_payload(scene@.take(i as int)),
            indices@ =~= scene_indices(scene@.take(i as int), MATRIX_WORDS as int),
            indices@.len() == scene_index_count(scene@.take(i as int)),
            scene_fits(scene@),
            MATRIX_WORDS + scene_payload(scene@).len() <= ATTR_REGION_WORDS,
            scene_index_count(scene@) <= INDEX_REGION_WORDS,
        decreases scene@.len() - i,
    {
        let p = scene[i];
        let ghost prefix = scene@.take(i as int);
        proof {
            assert(scene@.take(i as int + 1) =~= prefix.push(scene@[i as int]));
            lemma_scene_payload_push(prefix, scene@[i as int]);
            lemma_scene_indices_push(prefix, scene@[i as int], MATRIX_WORDS as int);
            lemma_scene_index_count_push(prefix, scene@[i as int]);
            lemma_scene_payload_prefix_le(scene@, i as int + 1);
            lemma_scene_index_count_prefix_le(scene@, i as int + 1);
            lemma_scene_index_count_nonneg(prefix);
        }
        let base = MATRIX_WORDS + payload.len();
        assert(base + payload_words(scene@[i as int]).len() <= ATTR_REGION_WORDS);
        match p {
            Primitive::Rectangle { x, y, width, height } => {
                let base32 = base as u32;
                payload.push(Word::Px(x));
                payload.push(Word::Px(y));
                payload.push(Word::Px(width));
                payload.push(Word::Px(height));
                indices.push(encode_index(crate::encoding::PrimitiveKind::Rectangle, 0, base32));
                indices.push(encode_index(crate::encoding::PrimitiveKind::Rectangle, 1, base32));
                indices.push(encode_index(crate::encoding::PrimitiveKind::Rectangle, 2, base32));
                indices.push(encode_index(crate::encoding::PrimitiveKind::Rectangle, 2, base32));
                indices.push(encode_index(crate::encoding::PrimitiveKind::Rectangle, 3, base32));
                indices.push(encode_index(crate::encoding::PrimitiveKind::Rectangle, 0, base32));
            },
            Primitive::Triangle { v0, v1, v2 } => {
                let base32 = base as u32;
                payload.push(Word::Px(v0.x));
                payload.push(Word::Px(v0.y));
                payload.push(Word::Raw(v0.color));
                payload.push(Word::Px(v1.x));
                payload.push(Word::Px(v1.y));
                payload.push(Word::Raw(v1.color));
                payload.push(Word::Px(v2.x));
                payload.push(Word::Px(v2.y));
                payload.push(Word::Raw(v2.color));
                indices.push(encode_index(crate::encoding::PrimitiveKind::Triangle, 0, base32));
                indices.push(encode_index(crate::encoding::PrimitiveKind::Triangle, 0, base32 + 3));
                indices.push(encode_index(crate::encoding::PrimitiveKind::Triangle, 0, base32 + 6));
            },
        }
        i = i + 1;
    }
    proof {
        assert(scene@.take(scene@.len() as int) =~= scene@);
    }
    let n = indices.len();
    slot.matrix = matrix;
    slot.payload = payload;
    slot.indices = indices;
    Ok(n)
}

/// Fills one frame slot from the fixed geometry table, as each iteration
/// of the frame loop does.  The fixed table always fits the regions, so
/// this never fails and always returns an index count of 9: 6 for the
/// rectangle and 3 for the triangle.
pub fn fill_frame(slot: &mut FrameSlot, view_w: u32, view_h: u32) -> (r: Result<
    usize,
    RenderError,
>)
    requires
        view_w > 0,
        view_h > 0,
    ensures
        r is Ok,
        match r {
            Ok(n) => {
                &&& final(slot).is_filled(spec_scene(view_w, view_h), view_w, view_h)
                &&& n == 9
            },
            Err(_) => false,
        },
{
    let table = scene(view_w, view_h);
    proof {
        lemma_fixed_scene_counts(view_w, view_h);
    }
    fill_slot(slot, &table, view_w, view_h)
}

/// The fixed geometry table occupies 13 attribute words and emits 9
/// indices, so it fits the regions.
proof fn lemma_fixed_scene_counts(w: u32, h: u32)
    ensures
        scene_payload(spec_scene(w, h)).len() == 13,
        scene_index_count(spec_scene(w, h)) == 9,
        scene_fits(spec_scene(w, h)),
{
    let s = spec_scene(w, h);
    let rest = s.skip(1);
    assert(rest.len() == 1);
    assert(rest[0] == s[1]);
    assert(rest.skip(1).len() == 0);
    assert(scene_payload(rest.skip(1)).len() == 0);
    assert(scene_index_count(rest.skip(1)) == 0);
    assert(s[0] is Rectangle);
    assert(s[1] is Triangle);
    assert(payload_words(s[0]).len() == 4);
    assert(payload_words(s[1]).len() == 9);
    assert(scene_payload(rest) == payload_words(rest[0]) + scene_payload(rest.skip(1)));
    assert(scene_payload(rest).len() == 9);
    assert(scene_payload(s) == payload_words(s[0]) + scene_payload(rest));
    assert(scene_payload(s).len() == 13);
    assert(scene_index_count(rest) == index_count(rest[0]) + scene_index_count(rest.skip(1)));
    assert(scene_index_count(s) == index_count(s[0]) + scene_index_count(rest));
}

/// Law: the writer is idempotent.  Two slots filled from the same geometry
/// table under the same viewport hold identical regions, word for word.
pub proof fn lemma_fill_idempotent(a: FrameSlot, b: FrameSlot, scene: Seq<Primitive>, w: u32, h: u32)
    requires
        a.is_filled(scene, w, h),
        b.is_filled(scene, w, h),
    ensures
        a.matrix.words@ == b.matrix.words@,
        a.payload@ == b.payload@,
        a.indices@ == b.indices@,
{
    assert(a.matrix.words@ =~= b.matrix.words@);
}

} // verus!
