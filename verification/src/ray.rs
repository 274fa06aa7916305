//! The ray picking engine: exact ray/triangle intersection over integer
//! coordinates, and distance-ordered picking across the entities of a scene.
//!
//! The intersection test follows the classic plane-then-edges scheme: build
//! the face normal from two edges in winding order, cull backfaces and
//! triangles behind the origin, solve for the ray parameter `t` on the
//! plane, and accept only points on the interior side of all three edges.
//! Over integer inputs every one of these steps is exact. The plane
//! denominator `dot(direction, normal)` is negative for every accepted
//! (front-facing) triangle, so the rational conditions are phrased
//! sign-agnostically by multiplying through with it, and the hit point and
//! parameter are returned as exact rationals with a positive denominator.

use vstd::prelude::*;

use crate::geometry::cross;
use crate::geometry::cross_i128;
use crate::geometry::dot;
use crate::geometry::dot_i128;
use crate::geometry::in_range;
use crate::geometry::lemma_mul_bound;
use crate::geometry::lemma_neg_factor_sign;
use crate::geometry::lemma_neg_neg_product;
use crate::geometry::vadd;
use crate::geometry::vscale;
use crate::geometry::vsub;
use crate::geometry::RatPoint;
use crate::geometry::Vec3;
use crate::geometry::Vec3i;
use crate::geometry::MAX_PICK_COORD;
use crate::geometry::MAX_POINT_DEN;
use crate::geometry::MAX_POINT_NUM;
use crate::asset_manager::AssetManager;
use crate::component::ComponentManager;
use crate::components::SceneComponent;
use crate::mesh::Mesh;
use crate::transform::world_scaled;
use crate::transform::Transform;
use crate::ComponentTypeId;
use crate::EntityId;

verus! {

/// Coordinate bound for a ray that is to be tested against a scene: scaling
/// by a rotation's scale must keep the origin within `MAX_PICK_COORD`.
pub const RAY_COORD_LIMIT: i64 = 16384;

/// A triangle in space, its corners in winding order.
#[derive(Clone, Copy, PartialEq, Eq, Structural, Debug)]
pub struct Triangle(pub Vec3, pub Vec3, pub Vec3);

/// The face normal of a triangle: the cross product of its first two edges
/// in winding order.
pub open spec fn tri_normal(t0: Vec3i, t1: Vec3i, t2: Vec3i) -> Vec3i {
    cross(vsub(t1, t0), vsub(t2, t1))
}

/// The denominator of the ray parameter at the triangle's plane: the ray
/// direction dotted with the face normal. Negative exactly when the
/// triangle faces the ray.
pub open spec fn plane_den(d: Vec3i, t0: Vec3i, t1: Vec3i, t2: Vec3i) -> int {
    dot(d, tri_normal(t0, t1, t2))
}

/// The numerator of the ray parameter at the triangle's plane: the ray
/// reaches the plane at `t = plane_num / plane_den`.
pub open spec fn plane_num(o: Vec3i, t0: Vec3i, t1: Vec3i, t2: Vec3i) -> int {
    dot(vsub(t0, o), tri_normal(t0, t1, t2))
}

/// The ray/plane intersection point, scaled by `plane_den`: the exact point
/// is this divided by `plane_den`.
pub open spec fn hit_point_scaled(o: Vec3i, d: Vec3i, t0: Vec3i, t1: Vec3i, t2: Vec3i) -> Vec3i {
    vadd(vscale(plane_den(d, t0, t1, t2), o), vscale(plane_num(o, t0, t1, t2), d))
}

/// The interior-side test for one directed edge `a -> b`: the edge vector,
/// crossed with the vector from `a` to the intersection point, must point
/// along the face normal. With the point scaled by `den`, the rational
/// condition is multiplied through by `den` twice, so it reads the same
/// whatever the sign of `den`.
pub open spec fn edge_inside(a: Vec3i, b: Vec3i, p_scaled: Vec3i, den: int, n: Vec3i) -> bool {
    dot(cross(vsub(b, a), vsub(p_scaled, vscale(den, a))), n) * den >= 0
}

/// When a ray strikes a triangle: the triangle faces the ray (backface
/// cull), every corner lies strictly ahead of the origin along the ray
/// (behind-origin cull), the ray parameter at the plane is strictly
/// positive, and the plane point lies on the interior side of all three
/// edges in winding order. Degenerate triangles and zero directions fail
/// the backface cull (their denominator is zero) and never hit.
pub open spec fn ray_hits_triangle(o: Vec3i, d: Vec3i, t0: Vec3i, t1: Vec3i, t2: Vec3i) -> bool {
    let n = tri_normal(t0, t1, t2);
    let den = plane_den(d, t0, t1, t2);
    let tnum = plane_num(o, t0, t1, t2);
    let p = hit_point_scaled(o, d, t0, t1, t2);
    &&& den < 0
    &&& dot(vsub(t0, o), d) > 0
    &&& dot(vsub(t1, o), d) > 0
    &&& dot(vsub(t2, o), d) > 0
    &&& tnum * den > 0
    &&& edge_inside(t0, t1, p, den, n)
    &&& edge_inside(t1, t2, p, den, n)
    &&& edge_inside(t2, t0, p, den, n)
}

/// An accepted intersection of one ray and one triangle: the ray parameter
/// and the exact hit point, both over the point's positive denominator.
#[derive(Clone, Copy, PartialEq, Eq, Structural, Debug)]
pub struct TriangleHit {
    /// Numerator of the ray parameter: `t = t_num / point.den`, always
    /// strictly positive.
    pub t_num: i128,
    /// The exact hit point.
    pub point: RatPoint,
}

/// Tests one ray against one triangle, exactly. Some exactly when
/// `ray_hits_triangle` holds, and then the ray parameter and hit point are
/// the exact rational solutions, normalized to a positive denominator.
pub fn ray_triangle_intersect(orig: Vec3, dir: Vec3, v0: Vec3, v1: Vec3, v2: Vec3) -> (r: Option<
    TriangleHit,
>)
    requires
        in_range(orig@, MAX_PICK_COORD as int),
        in_range(dir@, MAX_PICK_COORD as int),
        in_range(v0@, MAX_PICK_COORD as int),
        in_range(v1@, MAX_PICK_COORD as int),
        in_range(v2@, MAX_PICK_COORD as int),
    ensures
        r is Some <==> ray_hits_triangle(orig@, dir@, v0@, v1@, v2@),
        r matches Some(h) ==> {
            &&& h.t_num == -plane_num(orig@, v0@, v1@, v2@)
            &&& h.point.den == -plane_den(dir@, v0@, v1@, v2@)
            &&& h.point.nx == -hit_point_scaled(orig@, dir@, v0@, v1@, v2@).x
            &&& h.point.ny == -hit_point_scaled(orig@, dir@, v0@, v1@, v2@).y
            &&& h.point.nz == -hit_point_scaled(orig@, dir@, v0@, v1@, v2@).z
            &&& 0 < h.t_num <= 13510798882111488
            &&& 0 < h.point.den <= 6755399441055744
            &&& h.point.wf()
        },
{
    let ox = orig.x as i128;
    let oy = orig.y as i128;
    let oz = orig.z as i128;
    let dx = dir.x as i128;
    let dy = dir.y as i128;
    let dz = dir.z as i128;
    // Edge vectors in winding order.
    let e1x = v1.x as i128 - v0.x as i128;
    let e1y = v1.y as i128 - v0.y as i128;
    let e1z = v1.z as i128 - v0.z as i128;
    let e2x = v2.x as i128 - v1.x as i128;
    let e2y = v2.y as i128 - v1.y as i128;
    let e2z = v2.z as i128 - v1.z as i128;
    let e3x = v0.x as i128 - v2.x as i128;
    let e3y = v0.y as i128 - v2.y as i128;
    let e3z = v0.z as i128 - v2.z as i128;
    // Face normal.
    let (nx, ny, nz) = cross_i128(e1x, e1y, e1z, e2x, e2y, e2z, Ghost(131072), Ghost(131072));
    proof {
        assert((Vec3i { x: nx as int, y: ny as int, z: nz as int }) == tri_normal(
            v0@,
            v1@,
            v2@,
        ));
    }
    // Backface cull: the triangle must face the ray.
    let den = dot_i128(dx, dy, dz, nx, ny, nz, Ghost(65536), Ghost(34359738368));
    if den >= 0 {
        return None;
    }
    // Behind-origin cull: every corner strictly ahead of the origin.
    let w0x = v0.x as i128 - ox;
    let w0y = v0.y as i128 - oy;
    let w0z = v0.z as i128 - oz;
    let b0 = dot_i128(w0x, w0y, w0z, dx, dy, dz, Ghost(131072), Ghost(65536));
    if b0 <= 0 {
        return None;
    }
    let w1x = v1.x as i128 - ox;
    let w1y = v1.y as i128 - oy;
    let w1z = v1.z as i128 - oz;
    let b1 = dot_i128(w1x, w1y, w1z, dx, dy, dz, Ghost(131072), Ghost(65536));
    if b1 <= 0 {
        return None;
    }
    let w2x = v2.x as i128 - ox;
    let w2y = v2.y as i128 - oy;
    let w2z = v2.z as i128 - oz;
    let b2 = dot_i128(w2x, w2y, w2z, dx, dy, dz, Ghost(131072), Ghost(65536));
    if b2 <= 0 {
        return None;
    }
    // The ray parameter at the plane, `tnum / den`; it must be strictly
    // positive, which with a negative denominator means a negative
    // numerator.
    let tnum = dot_i128(w0x, w0y, w0z, nx, ny, nz, Ghost(131072), Ghost(34359738368));
    if tnum >= 0 {
        proof {
            lemma_neg_factor_sign(tnum as int, den as int);
        }
        return None;
    }
    proof {
        lemma_neg_factor_sign(tnum as int, den as int);
        lemma_mul_bound(den as int, ox as int, 6755399441055744, 65536);
        lemma_mul_bound(den as int, oy as int, 6755399441055744, 65536);
        lemma_mul_bound(den as int, oz as int, 6755399441055744, 65536);
        lemma_mul_bound(tnum as int, dx as int, 13510798882111488, 65536);
        lemma_mul_bound(tnum as int, dy as int, 13510798882111488, 65536);
        lemma_mul_bound(tnum as int, dz as int, 13510798882111488, 65536);
    }
    // The intersection point, scaled by the (negative) denominator.
    let px = den * ox + tnum * dx;
    let py = den * oy + tnum * dy;
    let pz = den * oz + tnum * dz;
    proof {
        assert((Vec3i { x: px as int, y: py as int, z: pz as int }) == hit_point_scaled(
            orig@,
            dir@,
            v0@,
            v1@,
            v2@,
        ));
        lemma_mul_bound(den as int, v0.x as int, 6755399441055744, 65536);
        lemma_mul_bound(den as int, v0.y as int, 6755399441055744, 65536);
        lemma_mul_bound(den as int, v0.z as int, 6755399441055744, 65536);
        lemma_mul_bound(den as int, v1.x as int, 6755399441055744, 65536);
        lemma_mul_bound(den as int, v1.y as int, 6755399441055744, 65536);
        lemma_mul_bound(den as int, v1.z as int, 6755399441055744, 65536);
        lemma_mul_bound(den as int, v2.x as int, 6755399441055744, 65536);
        lemma_mul_bound(den as int, v2.y as int, 6755399441055744, 65536);
        lemma_mul_bound(den as int, v2.z as int, 6755399441055744, 65536);
    }
    // Interior-side test for each edge in winding order.
    let (c1x, c1y, c1z) = cross_i128(
        e1x,
        e1y,
        e1z,
        px - den * (v0.x as i128),
        py - den * (v0.y as i128),
        pz - den * (v0.z as i128),
        Ghost(131072),
        Ghost(1770887431076116955136),
    );
    let s1 = dot_i128(c1x, c1y, c1z, nx, ny, nz, Ghost(464227514732017603087171584), Ghost(34359738368));
    if s1 > 0 {
        proof {
            lemma_neg_factor_sign(s1 as int, den as int);
        }
        return None;
    }
    let (c2x, c2y, c2z) = cross_i128(
        e2x,
        e2y,
        e2z,
        px - den * (v1.x as i128),
        py - den * (v1.y as i128),
        pz - den * (v1.z as i128),
        Ghost(131072),
        Ghost(1770887431076116955136),
    );
    let s2 = dot_i128(c2x, c2y, c2z, nx, ny, nz, Ghost(464227514732017603087171584), Ghost(34359738368));
    if s2 > 0 {
        proof {
            lemma_neg_factor_sign(s2 as int, den as int);
        }
        return None;
    }
    let (c3x, c3y, c3z) = cross_i128(
        e3x,
        e3y,
        e3z,
        px - den * (v2.x as i128),
        py - den * (v2.y as i128),
        pz - den * (v2.z as i128),
        Ghost(131072),
        Ghost(1770887431076116955136),
    );
    let s3 = dot_i128(c3x, c3y, c3z, nx, ny, nz, Ghost(464227514732017603087171584), Ghost(34359738368));
    if s3 > 0 {
        proof {
            lemma_neg_factor_sign(s3 as int, den as int);
        }
        return None;
    }
    proof {
        lemma_neg_factor_sign(s1 as int, den as int);
        lemma_neg_factor_sign(s2 as int, den as int);
        lemma_neg_factor_sign(s3 as int, den as int);
        lemma_neg_neg_product(tnum as int, den as int);
        assert(ray_hits_triangle(orig@, dir@, v0@, v1@, v2@));
    }
    Some(
        TriangleHit {
            t_num: -tnum,
            point: RatPoint { nx: -px, ny: -py, nz: -pz, den: -den },
        },
    )
}

/// The picking ray: an origin and a direction. The direction need not be
/// normalized — none of the intersection predicates depend on its length.
#[derive(Clone, Copy, PartialEq, Eq, Structural, Debug)]
pub struct Ray {
    /// Where the ray starts.
    pub position: Vec3,
    /// Where it points.
    pub direction: Vec3,
}

/// One entity struck by a ray: the entity, the exact world-space point of
/// the intersection, and the ray parameter that orders hits by distance.
#[derive(Clone, Copy, PartialEq, Eq, Structural, Debug)]
pub struct RayHit {
    /// The entity whose geometry was struck.
    pub entity: EntityId,
    /// Numerator of the ray parameter: the hit lies at
    /// `t = t_num / point.den` along the ray, strictly beyond the origin.
    pub t_num: i128,
    /// The exact world-space intersection point.
    pub point: RatPoint,
}

impl RayHit {
    /// A hit of `entity` at the given ray parameter and point.
    pub fn new(entity: EntityId, t_num: i128, point: RatPoint) -> (h: RayHit)
        ensures
            h.entity == entity,
            h.t_num == t_num,
            h.point == point,
    {
        RayHit { entity, t_num, point }
    }

    /// The ray parameter is strictly positive and everything is within the
    /// bounds the intersection arithmetic guarantees.
    pub open spec fn wf(&self) -> bool {
        &&& 0 < self.t_num <= MAX_POINT_DEN
        &&& self.point.wf()
    }
}

/// Whether hit `a` lies no farther along the ray than hit `b`: the rational
/// comparison `a.t <= b.t`, cross-multiplied over the positive denominators.
pub open spec fn hit_le(a: RayHit, b: RayHit) -> bool {
    a.t_num * b.point.den <= b.t_num * a.point.den
}

/// Whether hit `h` lies on the ray `o + t * d`: each coordinate of the hit
/// point, taken over the hit's denominator, is the origin's coordinate plus
/// `t` times the direction's.
pub open spec fn hit_on_ray(h: RayHit, o: Vec3i, d: Vec3i) -> bool {
    &&& h.point.nx - o.x * h.point.den == h.t_num * d.x
    &&& h.point.ny - o.y * h.point.den == h.t_num * d.y
    &&& h.point.nz - o.z * h.point.den == h.t_num * d.z
}

/// The squared distance from `o` to the hit point, scaled by the square of
/// the hit's denominator.
pub open spec fn dist_sq_num(h: RayHit, o: Vec3i) -> int {
    (h.point.nx - o.x * h.point.den) * (h.point.nx - o.x * h.point.den) + (h.point.ny - o.y
        * h.point.den) * (h.point.ny - o.y * h.point.den) + (h.point.nz - o.z * h.point.den) * (
    h.point.nz - o.z * h.point.den)
}

/// Hit ordering is distance ordering: for two hits of one ray, `hit_le`
/// — the order the picking engine sorts by — implies that the first hit's
/// Euclidean distance from the ray origin is no larger than the second's,
/// squared distances being compared over the hits' denominators.
pub proof fn lemma_hit_le_orders_distance(a: RayHit, b: RayHit, o: Vec3i, d: Vec3i)
    requires
        a.wf(),
        b.wf(),
        hit_on_ray(a, o, d),
        hit_on_ray(b, o, d),
        hit_le(a, b),
    ensures
        dist_sq_num(a, o) * (b.point.den * b.point.den) <= dist_sq_num(b, o) * (a.point.den
            * a.point.den),
{
    let ta = a.t_num as int;
    let tb = b.t_num as int;
    let da = a.point.den as int;
    let db = b.point.den as int;
    let dd = d.x * d.x + d.y * d.y + d.z * d.z;
    lemma_dist_is_t_squared(a, o, d, ta, dd);
    lemma_dist_is_t_squared(b, o, d, tb, dd);
    assert((ta * ta * dd) * (db * db) <= (tb * tb * dd) * (da * da)) by (nonlinear_arith)
        requires
            0 < ta,
            0 < tb,
            0 < da,
            0 < db,
            0 <= dd,
            ta * db <= tb * da,
    ;
}

/// For a hit on the ray, the scaled squared distance from the origin is the
/// squared ray parameter times the squared length of the direction.
proof fn lemma_dist_is_t_squared(h: RayHit, o: Vec3i, d: Vec3i, t: int, dd: int)
    requires
        hit_on_ray(h, o, d),
        t == h.t_num,
        dd == d.x * d.x + d.y * d.y + d.z * d.z,
    ensures
        dist_sq_num(h, o) == t * t * dd,
        0 <= dd,
{
    let px = h.point.nx - o.x * h.point.den;
    let py = h.point.ny - o.y * h.point.den;
    let pz = h.point.nz - o.z * h.point.den;
    assert(px == t * d.x && py == t * d.y && pz == t * d.z);
    assert(px * px == (t * t) * (d.x * d.x)) by (nonlinear_arith)
        requires
            px == t * d.x,
    ;
    assert(py * py == (t * t) * (d.y * d.y)) by (nonlinear_arith)
        requires
            py == t * d.y,
    ;
    assert(pz * pz == (t * t) * (d.z * d.z)) by (nonlinear_arith)
        requires
            pz == t * d.z,
    ;
    assert((t * t) * (d.x * d.x) + (t * t) * (d.y * d.y) + (t * t) * (d.z * d.z) == (t * t) * dd)
        by (nonlinear_arith)
        requires
            dd == d.x * d.x + d.y * d.y + d.z * d.z,
    ;
    assert(t * t * dd == (t * t) * dd) by (nonlinear_arith);
    assert(0 <= dd) by (nonlinear_arith)
        requires
            dd == d.x * d.x + d.y * d.y + d.z * d.z,
    ;
}

/// Transitivity of the cross-multiplied rational order over positive
/// denominators.
proof fn lemma_rat_le_trans(an: int, ad: int, bn: int, bd: int, cn: int, cd: int)
    by (nonlinear_arith)
    requires
        0 < ad,
        0 < bd,
        0 < cd,
        an * bd <= bn * ad,
        bn * cd <= cn * bd,
    ensures
        an * cd <= cn * ad,
{
}

/// Inserting into a sequence adds exactly the inserted element to what the
/// sequence contains.
proof fn lemma_insert_contains<A>(s: Seq<A>, p: int, x: A)
    requires
        0 <= p <= s.len(),
    ensures
        forall|y: A| s.insert(p, x).contains(y) <==> (s.contains(y) || y == x),
{
    let t = s.insert(p, x);
    assert forall|y: A| t.contains(y) implies (s.contains(y) || y == x) by {
        let i = choose|i: int| 0 <= i < t.len() && t[i] == y;
        if i < p {
            assert(s[i] == y);
        } else if i == p {
        } else {
            assert(s[i - 1] == y);
        }
    }
    assert forall|y: A| (s.contains(y) || y == x) implies t.contains(y) by {
        if s.contains(y) {
            let i = choose|i: int| 0 <= i < s.len() && s[i] == y;
            if i < p {
                assert(t[i] == y);
            } else {
                assert(t[i + 1] == y);
            }
        } else {
            assert(t[p] == y);
        }
    }
}

/// Compares two hits by their ray parameter, exactly.
fn hit_le_exec(a: &RayHit, b: &RayHit) -> (r: bool)
    requires
        a.wf(),
        b.wf(),
    ensures
        r == hit_le(*a, *b),
{
    proof {
        lemma_mul_bound(a.t_num as int, b.point.den as int, MAX_POINT_DEN as int, MAX_POINT_DEN as int);
        lemma_mul_bound(b.t_num as int, a.point.den as int, MAX_POINT_DEN as int, MAX_POINT_DEN as int);
    }
    a.t_num * b.point.den <= b.t_num * a.point.den
}

/// Sorts hits ascending by their ray parameter — for one ray, ascending by
/// distance from its origin. Which hits the sequence holds is unchanged;
/// ties keep no particular order.
pub(crate) fn sort_hits(hits: &mut Vec<RayHit>)
    requires
        forall|i: int| 0 <= i < old(hits)@.len() ==> (#[trigger] old(hits)@[i]).wf(),
    ensures
        final(hits)@.len() == old(hits)@.len(),
        forall|i: int| 0 <= i < final(hits)@.len() ==> (#[trigger] final(hits)@[i]).wf(),
        forall|k: int, l: int|
            0 <= k < l < final(hits)@.len() ==> hit_le(final(hits)@[k], final(hits)@[l]),
        forall|h: RayHit| final(hits)@.contains(h) <==> old(hits)@.contains(h),
{
    let mut sorted: Vec<RayHit> = Vec::new();
    let n = hits.len();
    let mut i: usize = 0;
    while i < n
        invariant
            i <= n,
            n == hits@.len(),
            hits@ == old(hits)@,
            forall|j: int| 0 <= j < hits@.len() ==> (#[trigger] hits@[j]).wf(),
            sorted@.len() == i,
            forall|j: int| 0 <= j < sorted@.len() ==> (#[trigger] sorted@[j]).wf(),
            forall|k: int, l: int| 0 <= k < l < sorted@.len() ==> hit_le(sorted@[k], sorted@[l]),
            forall|h: RayHit|
                sorted@.contains(h) <==> exists|j: int| 0 <= j < i && hits@[j] == h,
        decreases n - i,
    {
        let x = hits[i];
        let ghost before = sorted@;
        let mut p: usize = 0;
        while p < sorted.len() && hit_le_exec(&sorted[p], &x)
            invariant
                p <= sorted@.len(),
                x.wf(),
                sorted@ == before,
                forall|j: int| 0 <= j < sorted@.len() ==> (#[trigger] sorted@[j]).wf(),
                forall|j: int| 0 <= j < p ==> hit_le(sorted@[j], x),
            decreases sorted@.len() - p,
        {
            p = p + 1;
        }
        proof {
            if p < sorted@.len() {
                assert(!hit_le(sorted@[p as int], x));
            }
            lemma_insert_contains(sorted@, p as int, x);
        }
        sorted.insert(p, x);
        proof {
            assert(hits@[i as int] == x);
            assert forall|k: int, l: int|
                0 <= k < l < sorted@.len() implies hit_le(sorted@[k], sorted@[l]) by {
                let pp = p as int;
                if l < pp {
                    assert(sorted@[k] == before[k] && sorted@[l] == before[l]);
                } else if k > pp {
                    assert(sorted@[k] == before[k - 1] && sorted@[l] == before[l - 1]);
                } else if k < pp && l == pp {
                    assert(sorted@[k] == before[k] && sorted@[l] == x);
                } else if k < pp && l > pp {
                    assert(sorted@[k] == before[k] && sorted@[l] == before[l - 1]);
                    assert(k < l - 1);
                } else {
                    assert(k == pp && l > pp);
                    assert(sorted@[k] == x && sorted@[l] == before[l - 1]);
                    assert(pp <= l - 1 < before.len());
                    assert(!hit_le(before[pp], x));
                    assert(hit_le(x, before[pp]));
                    if l - 1 > pp {
                        assert(hit_le(before[pp], before[l - 1]));
                        lemma_rat_le_trans(
                            x.t_num as int,
                            x.point.den as int,
                            before[pp].t_num as int,
                            before[pp].point.den as int,
                            before[l - 1].t_num as int,
                            before[l - 1].point.den as int,
                        );
                    }
                }
            }
            assert forall|h: RayHit|
                sorted@.contains(h) implies exists|j: int| 0 <= j < i + 1 && hits@[j] == h by {
                if before.contains(h) {
                    let j = choose|j: int| 0 <= j < i && hits@[j] == h;
                    assert(0 <= j < i + 1 && hits@[j] == h);
                } else {
                    assert(h == x);
                    assert(hits@[i as int] == h);
                }
            }
            assert forall|h: RayHit| (exists|j: int| 0 <= j < i + 1 && hits@[j] == h)
                implies sorted@.contains(h) by {
                let j = choose|j: int| 0 <= j < i + 1 && hits@[j] == h;
                if j < i {
                    assert(before.contains(h));
                } else {
                    assert(h == x);
                }
            }
        }
        i = i + 1;
    }
    *hits = sorted;
}



impl Ray {
    /// Within the bound a ray must respect so that scaling it by any
    /// rotation's scale stays within the picking bound.
    pub open spec fn wf(&self) -> bool {
        &&& in_range(self.position@, RAY_COORD_LIMIT as int)
        &&& in_range(self.direction@, RAY_COORD_LIMIT as int)
    }

    /// A ray from `position` along `direction`.
    pub fn new(position: Vec3, direction: Vec3) -> (r: Ray)
        ensures
            r.position == position,
            r.direction == direction,
    {
        Ray { position, direction }
    }

    /// Tests this ray against one triangle in world coordinates, exactly:
    /// `Some` exactly when the ray strikes the triangle, and then the hit
    /// carries the exact ray parameter and intersection point.
    pub fn intersect(&self, t: &Triangle) -> (r: Option<TriangleHit>)
        requires
            in_range(self.position@, MAX_PICK_COORD as int),
            in_range(self.direction@, MAX_PICK_COORD as int),
            in_range(t.0@, MAX_PICK_COORD as int),
            in_range(t.1@, MAX_PICK_COORD as int),
            in_range(t.2@, MAX_PICK_COORD as int),
        ensures
            r is Some <==> ray_hits_triangle(self.position@, self.direction@, t.0@, t.1@, t.2@),
            r matches Some(h) ==> {
                &&& h.t_num == -plane_num(self.position@, t.0@, t.1@, t.2@)
                &&& h.point.den == -plane_den(self.direction@, t.0@, t.1@, t.2@)
                &&& h.point.nx == -hit_point_scaled(self.position@, self.direction@, t.0@, t.1@, t.2@).x
                &&& h.point.ny == -hit_point_scaled(self.position@, self.direction@, t.0@, t.1@, t.2@).y
                &&& h.point.nz == -hit_point_scaled(self.position@, self.direction@, t.0@, t.1@, t.2@).z
                &&& h.point.wf()
                &&& 0 < h.t_num
            },
    {
        ray_triangle_intersect(self.position, self.direction, t.0, t.1, t.2)
    }
}

} // verus!
