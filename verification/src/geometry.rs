//! Exact integer geometry for the picking engine.
//!
//! All picking coordinates are integers (a fixed-point view of world space,
//! the unit being the caller's choice), so every dot product, cross product
//! and plane intersection below is exact: there is no rounding and no
//! "almost hit". A point that falls on a triangle's plane is a rational
//! point; `RatPoint` carries it as three numerators over one positive
//! denominator.

use vstd::prelude::*;

verus! {

/// Coordinate bound for the inputs of the ray/triangle intersection routine.
/// With all six input vectors bounded by this, every intermediate product of
/// the intersection arithmetic fits comfortably in `i128`.
pub const MAX_PICK_COORD: i64 = 65536;

/// An integer point or direction in 3-space.
#[derive(Clone, Copy, PartialEq, Eq, Structural, Debug)]
pub struct Vec3 {
    pub x: i64,
    pub y: i64,
    pub z: i64,
}

/// The mathematical value of a `Vec3` (and of the intermediate vectors of
/// the intersection arithmetic): a triple of unbounded integers.
pub ghost struct Vec3i {
    pub x: int,
    pub y: int,
    pub z: int,
}

impl View for Vec3 {
    type V = Vec3i;

    open spec fn view(&self) -> Vec3i {
        Vec3i { x: self.x as int, y: self.y as int, z: self.z as int }
    }
}

impl Vec3 {
    /// The vector with the given coordinates.
    pub fn new(x: i64, y: i64, z: i64) -> (v: Vec3)
        ensures
            v@ == (Vec3i { x: x as int, y: y as int, z: z as int }),
    {
        Vec3 { x, y, z }
    }
}

/// Component-wise sum.
pub open spec fn vadd(a: Vec3i, b: Vec3i) -> Vec3i {
    Vec3i { x: a.x + b.x, y: a.y + b.y, z: a.z + b.z }
}

/// Component-wise difference.
pub open spec fn vsub(a: Vec3i, b: Vec3i) -> Vec3i {
    Vec3i { x: a.x - b.x, y: a.y - b.y, z: a.z - b.z }
}

/// The vector scaled by `k`.
pub open spec fn vscale(k: int, v: Vec3i) -> Vec3i {
    Vec3i { x: k * v.x, y: k * v.y, z: k * v.z }
}

/// The dot product.
pub open spec fn dot(a: Vec3i, b: Vec3i) -> int {
    a.x * b.x + a.y * b.y + a.z * b.z
}

/// The cross product, in right-handed orientation.
pub open spec fn cross(a: Vec3i, b: Vec3i) -> Vec3i {
    Vec3i { x: a.y * b.z - a.z * b.y, y: a.z * b.x - a.x * b.z, z: a.x * b.y - a.y * b.x }
}

/// Whether every coordinate of `v` lies in `[-bound, bound]`.
pub open spec fn in_range(v: Vec3i, bound: int) -> bool {
    &&& -bound <= v.x <= bound
    &&& -bound <= v.y <= bound
    &&& -bound <= v.z <= bound
}

/// A rational point: `(nx/den, ny/den, nz/den)` with a positive denominator.
/// This is the exact shape of a ray/plane intersection point over integer
/// inputs.
#[derive(Clone, Copy, PartialEq, Eq, Structural, Debug)]
pub struct RatPoint {
    pub nx: i128,
    pub ny: i128,
    pub nz: i128,
    pub den: i128,
}

/// The numerator magnitude every intersection point respects.
pub const MAX_POINT_NUM: i128 = 0x80000000000000000000;

/// The denominator magnitude every intersection point respects.
pub const MAX_POINT_DEN: i128 = 0x1000000000000000;

impl RatPoint {
    /// The denominator is positive and all fields stay within the bounds the
    /// intersection arithmetic guarantees, so that comparisons against
    /// integer points and between two points cannot overflow.
    pub open spec fn wf(&self) -> bool {
        &&& 0 < self.den <= MAX_POINT_DEN
        &&& -MAX_POINT_NUM <= self.nx <= MAX_POINT_NUM
        &&& -MAX_POINT_NUM <= self.ny <= MAX_POINT_NUM
        &&& -MAX_POINT_NUM <= self.nz <= MAX_POINT_NUM
    }

    /// Whether this rational point is exactly the integer point `(x, y, z)`.
    pub open spec fn is_int_point(&self, x: int, y: int, z: int) -> bool {
        &&& self.nx == x * self.den
        &&& self.ny == y * self.den
        &&& self.nz == z * self.den
    }

    /// Compares this point with the integer point `(x, y, z)`, exactly.
    pub fn eq_int_point(&self, x: i64, y: i64, z: i64) -> (r: bool)
        requires
            self.wf(),
        ensures
            r <==> self.is_int_point(x as int, y as int, z as int),
    {
        proof {
            lemma_mul_bound(x as int, self.den as int, 0x8000000000000000, MAX_POINT_DEN as int);
            lemma_mul_bound(y as int, self.den as int, 0x8000000000000000, MAX_POINT_DEN as int);
            lemma_mul_bound(z as int, self.den as int, 0x8000000000000000, MAX_POINT_DEN as int);
        }
        self.nx == (x as i128) * self.den && self.ny == (y as i128) * self.den && self.nz == (
        z as i128) * self.den
    }
}


/// `i128::MAX`, for bound arguments of the widening helpers.
pub const I128_MAX_BOUND: i128 = 170141183460469231731687303715884105727;

/// The dot product of two bounded integer vectors, computed exactly in
/// `i128`: the ghost bounds certify that nothing can overflow.
pub(crate) fn dot_i128(
    ax: i128,
    ay: i128,
    az: i128,
    bx: i128,
    by: i128,
    bz: i128,
    Ghost(ba): Ghost<int>,
    Ghost(bb): Ghost<int>,
) -> (r: i128)
    requires
        -ba <= ax <= ba,
        -ba <= ay <= ba,
        -ba <= az <= ba,
        -bb <= bx <= bb,
        -bb <= by <= bb,
        -bb <= bz <= bb,
        0 <= ba,
        0 <= bb,
        3 * (ba * bb) <= I128_MAX_BOUND,
    ensures
        r == dot((Vec3i { x: ax as int, y: ay as int, z: az as int }), (Vec3i { x: bx as int, y: by as int, z: bz as int })),
        -(3 * (ba * bb)) <= r <= 3 * (ba * bb),
{
    proof {
        lemma_mul_bound(ax as int, bx as int, ba, bb);
        lemma_mul_bound(ay as int, by as int, ba, bb);
        lemma_mul_bound(az as int, bz as int, ba, bb);
    }
    ax * bx + ay * by + az * bz
}

/// The cross product of two bounded integer vectors, computed exactly in
/// `i128`: the ghost bounds certify that nothing can overflow.
pub(crate) fn cross_i128(
    ax: i128,
    ay: i128,
    az: i128,
    bx: i128,
    by: i128,
    bz: i128,
    Ghost(ba): Ghost<int>,
    Ghost(bb): Ghost<int>,
) -> (r: (i128, i128, i128))
    requires
        -ba <= ax <= ba,
        -ba <= ay <= ba,
        -ba <= az <= ba,
        -bb <= bx <= bb,
        -bb <= by <= bb,
        -bb <= bz <= bb,
        0 <= ba,
        0 <= bb,
        2 * (ba * bb) <= I128_MAX_BOUND,
    ensures
        r.0 == cross((Vec3i { x: ax as int, y: ay as int, z: az as int }), (Vec3i { x: bx as int, y: by as int, z: bz as int })).x,
        r.1 == cross((Vec3i { x: ax as int, y: ay as int, z: az as int }), (Vec3i { x: bx as int, y: by as int, z: bz as int })).y,
        r.2 == cross((Vec3i { x: ax as int, y: ay as int, z: az as int }), (Vec3i { x: bx as int, y: by as int, z: bz as int })).z,
        -(2 * (ba * bb)) <= r.0 <= 2 * (ba * bb),
        -(2 * (ba * bb)) <= r.1 <= 2 * (ba * bb),
        -(2 * (ba * bb)) <= r.2 <= 2 * (ba * bb),
{
    proof {
        lemma_mul_bound(ay as int, bz as int, ba, bb);
        lemma_mul_bound(az as int, by as int, ba, bb);
        lemma_mul_bound(az as int, bx as int, ba, bb);
        lemma_mul_bound(ax as int, bz as int, ba, bb);
        lemma_mul_bound(ax as int, by as int, ba, bb);
        lemma_mul_bound(ay as int, bx as int, ba, bb);
    }
    (ay * bz - az * by, az * bx - ax * bz, ax * by - ay * bx)
}

/// Bounds on the factors bound the product: the workhorse of every overflow
/// argument in the intersection arithmetic.
pub proof fn lemma_mul_bound(a: int, b: int, aa: int, bb: int)
    by (nonlinear_arith)
    requires
        -aa <= a <= aa,
        -bb <= b <= bb,
        0 <= aa,
        0 <= bb,
    ensures
        -(aa * bb) <= a * b <= aa * bb,
{
}

/// Multiplying an inequality's sides by a negative factor flips it: used to
/// turn the sign-agnostic rational conditions of the intersection predicate
/// into the concrete integer comparisons the code performs, the plane
/// denominator being negative for every front-facing triangle.
pub proof fn lemma_neg_factor_sign(s: int, d: int)
    by (nonlinear_arith)
    requires
        d < 0,
    ensures
        (s * d >= 0) <==> (s <= 0),
        (s * d > 0) <==> (s < 0),
{
}

/// A product of two negatives is positive; a product with zero is zero.
pub proof fn lemma_neg_neg_product(a: int, b: int)
    by (nonlinear_arith)
    requires
        a < 0,
        b < 0,
    ensures
        a * b > 0,
{
}

} // verus!
