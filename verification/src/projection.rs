//! Exact model of the per-frame orthographic projection.
//!
//! The first 16 words of every frame's attribute region hold a 4x4
//! column-major projection matrix, recomputed each frame from the viewport.
//! For a viewport of `w` by `h` pixels the matrix is fully determined by the
//! screen bounds (left 0, right `w`, top 0, bottom `h`) and the depth range
//! (near 0, far 1), and every entry is an exact rational number: `2/w`,
//! `2/h`, `-1`, `0` or `1`.  This module keeps the matrix in that exact
//! form; the unverified shell turns each entry into its 32-bit
//! floating-point word (numerator divided by denominator) when it copies a
//! frame into mapped memory.

use vstd::prelude::*;

verus! {

/// One exact rational matrix entry: `num / den`, with `den > 0`.
#[derive(Clone, Copy, Debug, PartialEq, Eq, Structural)]
pub struct Rat {
    pub num: i64,
    pub den: i64,
}

impl Rat {
    /// A well-formed entry has a positive denominator.
    pub open spec fn wf(self) -> bool {
        self.den > 0
    }
}

/// Rational value as a (numerator, denominator) pair of unbounded integers.
pub open spec fn rat_view(r: Rat) -> (int, int) {
    (r.num as int, r.den as int)
}

/// Product of a rational and an integer.
pub open spec fn rat_mul_int(a: (int, int), k: int) -> (int, int) {
    (a.0 * k, a.1)
}

/// Sum of two rationals (denominators multiplied, not reduced).
pub open spec fn rat_add(a: (int, int), b: (int, int)) -> (int, int) {
    (a.0 * b.1 + b.0 * a.1, a.1 * b.1)
}

/// The rational `a` equals the integer `v`.
pub open spec fn rat_eq_int(a: (int, int), v: int) -> bool {
    a.1 != 0 && a.0 == v * a.1
}

/// The 16 matrix words, column-major: entry (column `c`, row `r`) sits at
/// index `c * 4 + r`.
#[derive(Clone, Debug, PartialEq)]
pub struct Projection {
    pub words: Vec<Rat>,
}

impl Projection {
    pub open spec fn wf(self) -> bool {
        &&& self.words@.len() == 16
        &&& forall|i: int| 0 <= i < 16 ==> (#[trigger] self.words@[i]).wf()
    }
}

/// The matrix is the orthographic projection of a `w` by `h` viewport:
/// x is scaled by `2/w`, y by `2/h`, depth by `-1`, and the translation
/// column is `(-1, -1, 0, 1)`; every other entry is zero.
pub open spec fn is_ortho(m: Projection, w: u32, h: u32) -> bool {
    &&& m.words@.len() == 16
    &&& m.words@[0] == (Rat { num: 2, den: w as i64 })
    &&& m.words@[5] == (Rat { num: 2, den: h as i64 })
    &&& m.words@[10] == (Rat { num: -1i64, den: 1 })
    &&& m.words@[12] == (Rat { num: -1i64, den: 1 })
    &&& m.words@[13] == (Rat { num: -1i64, den: 1 })
    &&& m.words@[14] == (Rat { num: 0, den: 1 })
    &&& m.words@[15] == (Rat { num: 1, den: 1 })
    &&& m.words@[1] == (Rat { num: 0, den: 1 })
    &&& m.words@[2] == (Rat { num: 0, den: 1 })
    &&& m.words@[3] == (Rat { num: 0, den: 1 })
    &&& m.words@[4] == (Rat { num: 0, den: 1 })
    &&& m.words@[6] == (Rat { num: 0, den: 1 })
    &&& m.words@[7] == (Rat { num: 0, den: 1 })
    &&& m.words@[8] == (Rat { num: 0, den: 1 })
    &&& m.words@[9] == (Rat { num: 0, den: 1 })
    &&& m.words@[11] == (Rat { num: 0, den: 1 })
}

/// Clip-space x of pixel point (x, y): the first row of the matrix applied
/// to the column vector (x, y, 0, 1).
pub open spec fn clip_x(m: Projection, x: int, y: int) -> (int, int) {
    rat_add(
        rat_add(
            rat_add(
                rat_mul_int(rat_view(m.words@[0]), x),
                rat_mul_int(rat_view(m.words@[4]), y),
            ),
            rat_mul_int(rat_view(m.words@[8]), 0),
        ),
        rat_view(m.words@[12]),
    )
}

/// Clip-space y of pixel point (x, y): the second row of the matrix applied
/// to the column vector (x, y, 0, 1).
pub open spec fn clip_y(m: Projection, x: int, y: int) -> (int, int) {
    rat_add(
        rat_add(
            rat_add(
                rat_mul_int(rat_view(m.words@[1]), x),
                rat_mul_int(rat_view(m.words@[5]), y),
            ),
            rat_mul_int(rat_view(m.words@[9]), 0),
        ),
        rat_view(m.words@[13]),
    )
}

/// Builds the orthographic projection matrix for a `w` by `h` viewport.
pub fn ortho_projection(w: u32, h: u32) -> (m: Projection)
    requires
        w > 0,
        h > 0,
    ensures
        m.wf(),
        is_ortho(m, w, h),
{
    let mut words: Vec<Rat> = Vec::new();
    let zero = Rat { num: 0, den: 1 };
    // Column 0: x scale.
    words.push(Rat { num: 2, den: w as i64 });
    words.push(zero);
    words.push(zero);
    words.push(zero);
    // Column 1: y scale.
    words.push(zero);
    words.push(Rat { num: 2, den: h as i64 });
    words.push(zero);
    words.push(zero);
    // Column 2: depth scale over the (0, 1) depth range.
    words.push(zero);
    words.push(zero);
    words.push(Rat { num: -1i64, den: 1 });
    words.push(zero);
    // Column 3: translation.
    words.push(Rat { num: -1i64, den: 1 });
    words.push(Rat { num: -1i64, den: 1 });
    words.push(zero);
    words.push(Rat { num: 1, den: 1 });
    Projection { words }
}

/// Law: the projection maps the screen corners to the clip-space corners.
/// For any viewport with `w > 0` and `h > 0`, pixel (0, 0) lands exactly on
/// clip (-1, -1) and pixel (w, h) lands exactly on clip (1, 1).
pub proof fn lemma_ortho_maps_corners(m: Projection, w: u32, h: u32)
    requires
        is_ortho(m, w, h),
        w > 0,
        h > 0,
    ensures
        rat_eq_int(clip_x(m, 0, 0), -1),
        rat_eq_int(clip_y(m, 0, 0), -1),
        rat_eq_int(clip_x(m, w as int, h as int), 1),
        rat_eq_int(clip_y(m, w as int, h as int), 1),
{
    let wi = w as int;
    let hi = h as int;
    assert(rat_view(m.words@[0]) == (2int, wi));
    assert(rat_view(m.words@[5]) == (2int, hi));
    assert(rat_view(m.words@[12]) == (-1int, 1int));
    let x0 = clip_x(m, 0, 0);
    assert(x0.1 == ((wi * 1) * 1) * 1);
    assert(x0.0 == (((2 * 0) * 1 + (0 * 0) * wi) * 1 + (0 * 0) * (wi * 1)) * 1 + (-1)
        * ((wi * 1) * 1));
    assert(x0.1 == wi && x0.0 == -1 * wi) by (nonlinear_arith)
        requires
            x0.1 == ((wi * 1) * 1) * 1,
            x0.0 == (((2 * 0) * 1 + (0 * 0) * wi) * 1 + (0 * 0) * (wi * 1)) * 1 + (-1) * ((wi
                * 1) * 1),
    ;
    let y0 = clip_y(m, 0, 0);
    assert(y0.1 == ((hi * 1) * 1) * 1);
    assert(y0.0 == (((0 * 0) * hi + (2 * 0) * 1) * 1 + (0 * 0) * (1 * hi)) * 1 + (-1)
        * ((1 * hi) * 1));
    assert(y0.1 == hi && y0.0 == -1 * hi) by (nonlinear_arith)
        requires
            y0.1 == ((hi * 1) * 1) * 1,
            y0.0 == (((0 * 0) * hi + (2 * 0) * 1) * 1 + (0 * 0) * (1 * hi)) * 1 + (-1) * ((1
                * hi) * 1),
    ;
    let x1 = clip_x(m, wi, hi);
    assert(x1.1 == ((wi * 1) * 1) * 1);
    assert(x1.0 == (((2 * wi) * 1 + (0 * hi) * wi) * 1 + (0 * 0) * (wi * 1)) * 1 + (-1)
        * ((wi * 1) * 1));
    assert(x1.1 == wi && x1.0 == 1 * wi) by (nonlinear_arith)
        requires
            x1.1 == ((wi * 1) * 1) * 1,
            x1.0 == (((2 * wi) * 1 + (0 * hi) * wi) * 1 + (0 * 0) * (wi * 1)) * 1 + (-1) * ((wi
                * 1) * 1),
    ;
    let y1 = clip_y(m, wi, hi);
    assert(y1.1 == ((hi * 1) * 1) * 1);
    assert(y1.0 == (((0 * wi) * hi + (2 * hi) * 1) * 1 + (0 * 0) * (1 * hi)) * 1 + (-1)
        * ((1 * hi) * 1));
    assert(y1.1 == hi && y1.0 == 1 * hi) by (nonlinear_arith)
        requires
            y1.1 == ((hi * 1) * 1) * 1,
            y1.0 == (((0 * wi) * hi + (2 * hi) * 1) * 1 + (0 * 0) * (1 * hi)) * 1 + (-1) * ((1
                * hi) * 1),
    ;
}

} // verus!
