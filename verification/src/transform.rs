//! Placement of an entity in world space: an integer position and an exact
//! rational rotation.
//!
//! A rotation is carried as an integer 3×3 matrix together with a positive
//! scale: the true rotation is the matrix divided by the scale. Every
//! quaternion with small integer components yields such a matrix exactly
//! (the scale being the quaternion's squared norm), so quarter turns and
//! their compositions are represented with no rounding at all. Applying a
//! transform therefore yields world coordinates scaled by the rotation's
//! scale — a uniform scaling that the picking predicate is invariant under.

use vstd::prelude::*;

use crate::geometry::dot;
use crate::geometry::in_range;
use crate::geometry::lemma_mul_bound;
use crate::geometry::vadd;
use crate::geometry::vscale;
use crate::geometry::RatPoint;
use crate::geometry::Vec3;
use crate::geometry::Vec3i;

verus! {

/// Coordinate bound for entity positions and mesh vertices; together with
/// `ROT_SCALE_LIMIT` it keeps every scaled world coordinate within
/// `MAX_PICK_COORD`.
pub const POS_COORD_LIMIT: i64 = 4096;

/// Upper bound on a rotation's scale (the squared norm of the quaternion it
/// came from).
pub const ROT_SCALE_LIMIT: i64 = 4;

/// An exact rotation: the matrix with rows `r0, r1, r2`, divided by `scale`.
#[derive(Clone, Copy, PartialEq, Eq, Structural, Debug)]
pub struct Rotation {
    /// First row of the scaled rotation matrix.
    pub r0: Vec3,
    /// Second row of the scaled rotation matrix.
    pub r1: Vec3,
    /// Third row of the scaled rotation matrix.
    pub r2: Vec3,
    /// The positive scale the matrix carries: the true rotation is `m / scale`.
    pub scale: i64,
}

/// The scaled matrix applied to a vector: row-wise dot products.
pub open spec fn rot_apply(r: Rotation, v: Vec3i) -> Vec3i {
    Vec3i { x: dot(r.r0@, v), y: dot(r.r1@, v), z: dot(r.r2@, v) }
}

impl Rotation {
    /// The scale is positive and small, and no matrix entry exceeds it in
    /// magnitude — true of every matrix built from a small quaternion, and
    /// exactly what keeps the world coordinates of a transformed vertex
    /// within the picking bound.
    pub open spec fn wf(&self) -> bool {
        &&& 1 <= self.scale <= ROT_SCALE_LIMIT
        &&& in_range(self.r0@, self.scale as int)
        &&& in_range(self.r1@, self.scale as int)
        &&& in_range(self.r2@, self.scale as int)
    }

    /// The identity rotation as a value, for speaking about defaults.
    pub open spec fn identity_spec() -> Rotation {
        Rotation {
            r0: Vec3 { x: 1, y: 0, z: 0 },
            r1: Vec3 { x: 0, y: 1, z: 0 },
            r2: Vec3 { x: 0, y: 0, z: 1 },
            scale: 1,
        }
    }

    /// The identity rotation, at scale one: it moves nothing.
    pub fn identity() -> (r: Rotation)
        ensures
            r == Rotation::identity_spec(),
            r.wf(),
            forall|v: Vec3i| #[trigger] rot_apply(r, v) == v,
    {
        let r = Rotation {
            r0: Vec3::new(1, 0, 0),
            r1: Vec3::new(0, 1, 0),
            r2: Vec3::new(0, 0, 1),
            scale: 1,
        };
        proof {
            assert forall|v: Vec3i| #[trigger] rot_apply(r, v) == v by {
                assert(rot_apply(r, v) =~= v);
            }
        }
        r
    }

    /// The scaled matrix of the quaternion `w + xi + yj + zk`: the rotation
    /// it describes, times its squared norm `s = w² + x² + y² + z²`. Small
    /// components are enough for the axis-aligned quarter and half turns a
    /// scene uses — for a quarter turn about the x axis, `(1, 1, 0, 0)`.
    /// The quaternion must not be zero and its squared norm must stay within
    /// `ROT_SCALE_LIMIT`.
    pub fn from_quaternion(w: i64, x: i64, y: i64, z: i64) -> (r: Rotation)
        requires
            -2 <= w <= 2,
            -2 <= x <= 2,
            -2 <= y <= 2,
            -2 <= z <= 2,
            1 <= w * w + x * x + y * y + z * z <= ROT_SCALE_LIMIT,
        ensures
            r.wf(),
            r.scale == w * w + x * x + y * y + z * z,
            r.r0@ == (Vec3i {
                x: r.scale - 2 * (y * y + z * z),
                y: 2 * (x * y - z * w),
                z: 2 * (x * z + y * w),
            }),
            r.r1@ == (Vec3i {
                x: 2 * (x * y + z * w),
                y: r.scale - 2 * (x * x + z * z),
                z: 2 * (y * z - x * w),
            }),
            r.r2@ == (Vec3i {
                x: 2 * (x * z - y * w),
                y: 2 * (y * z + x * w),
                z: r.scale - 2 * (x * x + y * y),
            }),
    {
        proof {
            lemma_mul_bound(w as int, w as int, 2, 2);
            lemma_mul_bound(x as int, x as int, 2, 2);
            lemma_mul_bound(y as int, y as int, 2, 2);
            lemma_mul_bound(z as int, z as int, 2, 2);
            lemma_mul_bound(x as int, y as int, 2, 2);
            lemma_mul_bound(z as int, w as int, 2, 2);
            lemma_mul_bound(x as int, z as int, 2, 2);
            lemma_mul_bound(y as int, w as int, 2, 2);
            lemma_mul_bound(y as int, z as int, 2, 2);
            lemma_mul_bound(x as int, w as int, 2, 2);
        }
        let s = w * w + x * x + y * y + z * z;
        proof {
            lemma_quat_matrix_bounds(w as int, x as int, y as int, z as int, s as int);
        }
        Rotation {
            r0: Vec3::new(s - 2 * (y * y + z * z), 2 * (x * y - z * w), 2 * (x * z + y * w)),
            r1: Vec3::new(2 * (x * y + z * w), s - 2 * (x * x + z * z), 2 * (y * z - x * w)),
            r2: Vec3::new(2 * (x * z - y * w), 2 * (y * z + x * w), s - 2 * (x * x + y * y)),
            scale: s,
        }
    }
}

/// Every entry of a quaternion's scaled rotation matrix is bounded by the
/// squared norm: the diagonal because the omitted squares are nonnegative,
/// the off-diagonal entries because `2ab` never exceeds `a² + b²`.
proof fn lemma_quat_matrix_bounds(w: int, x: int, y: int, z: int, s: int)
    by (nonlinear_arith)
    requires
        s == w * w + x * x + y * y + z * z,
    ensures
        -s <= s - 2 * (y * y + z * z) <= s,
        -s <= s - 2 * (x * x + z * z) <= s,
        -s <= s - 2 * (x * x + y * y) <= s,
        -s <= 2 * (x * y - z * w) <= s,
        -s <= 2 * (x * z + y * w) <= s,
        -s <= 2 * (x * y + z * w) <= s,
        -s <= 2 * (y * z - x * w) <= s,
        -s <= 2 * (x * z - y * w) <= s,
        -s <= 2 * (y * z + x * w) <= s,
{
}

/// Where an entity stands and how it is turned: position, rotation, and the
/// direction it faces.
#[derive(Clone, Copy, PartialEq, Eq, Structural, Debug)]
pub struct Transform {
    /// World-space position.
    pub position: Vec3,
    /// Orientation, always an exact rotation.
    pub rotation: Rotation,
    /// The direction the entity faces.
    pub forward: Vec3,
}

/// A vertex of an entity's mesh carried into world space, scaled by the
/// rotation's scale: the matrix applied to the vertex, plus the scaled
/// position. The true world point is this divided by `t.rotation.scale`.
pub open spec fn world_scaled(t: Transform, v: Vec3i) -> Vec3i {
    vadd(rot_apply(t.rotation, v), vscale(t.rotation.scale as int, t.position@))
}

impl Transform {
    /// The rotation is exact and the position lies within the world bound.
    pub open spec fn wf(&self) -> bool {
        &&& self.rotation.wf()
        &&& in_range(self.position@, POS_COORD_LIMIT as int)
    }

    /// A transform from the given parts; what is not given takes the
    /// canonical default — the origin, the identity orientation, facing
    /// along positive x.
    pub fn new(position: Option<Vec3>, rotation: Option<Rotation>, forward: Option<Vec3>) -> (t:
        Transform)
        requires
            position matches Some(p) ==> in_range(p@, POS_COORD_LIMIT as int),
            rotation matches Some(r) ==> r.wf(),
        ensures
            t.wf(),
            t.position == (match position {
                Some(p) => p,
                None => Vec3 { x: 0, y: 0, z: 0 },
            }),
            rotation matches Some(r) ==> t.rotation == r,
            rotation is None ==> t.rotation == Rotation::identity_spec(),
            t.forward == (match forward {
                Some(f) => f,
                None => Vec3 { x: 1, y: 0, z: 0 },
            }),
    {
        let position = match position {
            Some(pos) => pos,
            None => Vec3::new(0, 0, 0),
        };
        let rotation = match rotation {
            Some(rot) => rot,
            None => Rotation::identity(),
        };
        let forward = match forward {
            Some(vec) => vec,
            None => Vec3::new(1, 0, 0),
        };
        Transform { position, rotation, forward }
    }

    /// Carries a mesh vertex into world space, scaled by the rotation's
    /// scale; the result always fits the picking bound.
    pub fn apply_scaled(&self, v: Vec3) -> (w: Vec3)
        requires
            self.wf(),
            in_range(v@, POS_COORD_LIMIT as int),
        ensures
            w@ == world_scaled(*self, v@),
            in_range(w@, crate::geometry::MAX_PICK_COORD as int),
    {
        proof {
            lemma_rot_row_bound(self.rotation.r0@, v@, self.rotation.scale as int);
            lemma_rot_row_bound(self.rotation.r1@, v@, self.rotation.scale as int);
            lemma_rot_row_bound(self.rotation.r2@, v@, self.rotation.scale as int);
            lemma_mul_bound(self.rotation.scale as int, self.position.x as int, 4, 4096);
            lemma_mul_bound(self.rotation.scale as int, self.position.y as int, 4, 4096);
            lemma_mul_bound(self.rotation.scale as int, self.position.z as int, 4, 4096);
        }
        let x = self.rotation.r0.x * v.x + self.rotation.r0.y * v.y + self.rotation.r0.z * v.z
            + self.rotation.scale * self.position.x;
        let y = self.rotation.r1.x * v.x + self.rotation.r1.y * v.y + self.rotation.r1.z * v.z
            + self.rotation.scale * self.position.y;
        let z = self.rotation.r2.x * v.x + self.rotation.r2.y * v.y + self.rotation.r2.z * v.z
            + self.rotation.scale * self.position.z;
        Vec3::new(x, y, z)
    }

    /// The exact world-space image of a point under this transform: rotation
    /// applied first, translation after, as a rational point.
    pub fn apply_to_point(&self, v: Vec3) -> (p: RatPoint)
        requires
            self.wf(),
            in_range(v@, POS_COORD_LIMIT as int),
        ensures
            p.wf(),
            p.den == self.rotation.scale,
            p.nx == world_scaled(*self, v@).x,
            p.ny == world_scaled(*self, v@).y,
            p.nz == world_scaled(*self, v@).z,
    {
        let w = self.apply_scaled(v);
        RatPoint { nx: w.x as i128, ny: w.y as i128, nz: w.z as i128, den: self.rotation.scale as i128 }
    }
}

impl Default for Transform {
    /// The canonical placement: the origin, unrotated, facing positive x.
    fn default() -> (t: Transform)
        ensures
            t.wf(),
            t.position == (Vec3 { x: 0, y: 0, z: 0 }),
            t.rotation == Rotation::identity_spec(),
            t.forward == (Vec3 { x: 1, y: 0, z: 0 }),
    {
        Transform::new(None, None, None)
    }
}

/// A row of a well-formed rotation dotted with a bounded vector stays within
/// three quarters of the picking bound, leaving room for the translation.
proof fn lemma_rot_row_bound(row: Vec3i, v: Vec3i, s: int)
    requires
        1 <= s <= 4,
        in_range(row, s),
        in_range(v, 4096),
    ensures
        -16384 <= row.x * v.x <= 16384,
        -16384 <= row.y * v.y <= 16384,
        -16384 <= row.z * v.z <= 16384,
        -49152 <= dot(row, v) <= 49152,
{
    lemma_mul_bound(row.x, v.x, 4, 4096);
    lemma_mul_bound(row.y, v.y, 4, 4096);
    lemma_mul_bound(row.z, v.z, 4, 4096);
}

} // verus!
