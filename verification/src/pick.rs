//! Scene-level picking: testing a ray against the geometry of a set of
//! candidate entities, drawn from the component store and the asset cache,
//! and ordering the hits by distance from the ray origin.

use vstd::prelude::*;

use crate::asset_manager::AssetManager;
use crate::component::ComponentManager;
use crate::components::SceneComponent;
use crate::geometry::in_range;
use crate::geometry::lemma_mul_bound;
use crate::geometry::vscale;
use crate::geometry::RatPoint;
use crate::geometry::Vec3;
use crate::geometry::Vec3i;
use crate::geometry::MAX_PICK_COORD;
use crate::mesh::Mesh;
use crate::ray::hit_on_ray;
use crate::ray::hit_le;
use crate::ray::plane_den;
use crate::ray::plane_num;
use crate::ray::hit_point_scaled;
use crate::ray::ray_hits_triangle;
use crate::ray::ray_triangle_intersect;
use crate::ray::sort_hits;
use crate::ray::Ray;
use crate::ray::RayHit;
use crate::ray::RAY_COORD_LIMIT;
use crate::transform::world_scaled;
use crate::transform::Transform;
use crate::ComponentTypeId;
use crate::EntityId;

verus! {

/// Why a pick failed: some candidate entity does not carry what every
/// candidate must carry.
#[derive(Clone, Copy, PartialEq, Eq, Structural, Debug)]
pub enum PickError {
    /// A candidate's transform component is absent, checked out, or not a
    /// transform.
    MissingTransform,
    /// A candidate's model component is absent, checked out, or not a model.
    MissingModel,
    /// A candidate's model names an asset handle the cache never minted.
    UnknownAsset,
}

/// Corner `j` of triangle `k` of mesh `m`, carried into world space by the
/// transform `tr` (scaled by the rotation's scale).
pub open spec fn world_tri_vertex(tr: Transform, m: Mesh, k: int, j: int) -> Vec3i {
    world_scaled(tr, m.tri_vertex(k, j))
}

/// Whether the ray with scaled origin `o_scaled` and direction `d` strikes
/// triangle `k` of mesh `m` under transform `tr`. The origin is scaled by
/// the same factor as the vertices, so this is exactly a hit in true world
/// space.
pub open spec fn mesh_tri_hits(o_scaled: Vec3i, d: Vec3i, tr: Transform, m: Mesh, k: int) -> bool {
    ray_hits_triangle(
        o_scaled,
        d,
        world_tri_vertex(tr, m, k, 0),
        world_tri_vertex(tr, m, k, 1),
        world_tri_vertex(tr, m, k, 2),
    )
}

/// The exact hit record for triangle `k` of mesh `m`: the intersection's
/// parameter numerator and point, with the rotation's scale folded into the
/// common denominator so that the point is in true world coordinates.
pub open spec fn is_tri_hit(
    h: RayHit,
    entity: EntityId,
    o_scaled: Vec3i,
    d: Vec3i,
    tr: Transform,
    m: Mesh,
    k: int,
) -> bool {
    let w0 = world_tri_vertex(tr, m, k, 0);
    let w1 = world_tri_vertex(tr, m, k, 1);
    let w2 = world_tri_vertex(tr, m, k, 2);
    let s = tr.rotation.scale as int;
    &&& h.entity == entity
    &&& h.t_num == -plane_num(o_scaled, w0, w1, w2)
    &&& h.point.den == -(plane_den(d, w0, w1, w2) * s)
    &&& h.point.nx == -hit_point_scaled(o_scaled, d, w0, w1, w2).x
    &&& h.point.ny == -hit_point_scaled(o_scaled, d, w0, w1, w2).y
    &&& h.point.nz == -hit_point_scaled(o_scaled, d, w0, w1, w2).z
}

/// One coordinate of the ray equation, recovered from the scaled hit
/// fields: a ring identity.
proof fn lemma_on_ray_coord(num: int, den_h: int, t_h: int, a: int, s: int, x: int, t: int, dx: int)
    by (nonlinear_arith)
    requires
        num == -(a * (s * x) + t * dx),
        den_h == -(a * s),
        t_h == -t,
    ensures
        num - x * den_h == t_h * dx,
{
}

/// A hit collected against scaled world geometry lies on the original,
/// unscaled ray: scaling origin and vertices alike cancels out of the ray
/// equation.
pub proof fn lemma_tri_hit_on_ray(
    h: RayHit,
    entity: EntityId,
    o: Vec3i,
    d: Vec3i,
    tr: Transform,
    m: Mesh,
    k: int,
)
    requires
        is_tri_hit(h, entity, vscale(tr.rotation.scale as int, o), d, tr, m, k),
    ensures
        hit_on_ray(h, o, d),
{
    let s = tr.rotation.scale as int;
    let os = vscale(s, o);
    let w0 = world_tri_vertex(tr, m, k, 0);
    let w1 = world_tri_vertex(tr, m, k, 1);
    let w2 = world_tri_vertex(tr, m, k, 2);
    let a = plane_den(d, w0, w1, w2);
    let t = plane_num(os, w0, w1, w2);
    lemma_on_ray_coord(h.point.nx as int, h.point.den as int, h.t_num as int, a, s, o.x, t, d.x);
    lemma_on_ray_coord(h.point.ny as int, h.point.den as int, h.t_num as int, a, s, o.y, t, d.y);
    lemma_on_ray_coord(h.point.nz as int, h.point.den as int, h.t_num as int, a, s, o.z, t, d.z);
}

/// Triangle `k` of mesh `m` is struck and `h` is exactly its hit record.
pub open spec fn mesh_hit_witness(
    h: RayHit,
    entity: EntityId,
    o_scaled: Vec3i,
    d: Vec3i,
    tr: Transform,
    m: Mesh,
    k: int,
) -> bool {
    &&& 0 <= k < m.num_tris()
    &&& mesh_tri_hits(o_scaled, d, tr, m, k)
    &&& is_tri_hit(h, entity, o_scaled, d, tr, m, k)
}

/// Triangle `k` of mesh `mi` of model `mdl` is struck and `h` is exactly
/// its hit record.
pub open spec fn model_hit_witness(
    h: RayHit,
    entity: EntityId,
    o_scaled: Vec3i,
    d: Vec3i,
    tr: Transform,
    mdl: crate::mesh::Model,
    mi: int,
    k: int,
) -> bool {
    &&& 0 <= mi < mdl.meshes@.len()
    &&& mesh_hit_witness(h, entity, o_scaled, d, tr, mdl.meshes@[mi], k)
}

/// Tests the ray against every triangle of one mesh and appends one hit per
/// struck triangle; everything already in `hits` stays untouched.
#[verifier::rlimit(60)]
#[verifier::spinoff_prover]
fn collect_mesh_hits(
    entity: EntityId,
    orig_scaled: Vec3,
    dir: Vec3,
    tr: &Transform,
    m: &Mesh,
    prior: Vec<RayHit>,
) -> (hits: Vec<RayHit>)
    requires
        tr.wf(),
        m.wf(),
        in_range(orig_scaled@, MAX_PICK_COORD as int),
        in_range(dir@, MAX_PICK_COORD as int),
    ensures
        hits@.len() >= prior@.len(),
        forall|j: int| 0 <= j < prior@.len() ==> hits@[j] == prior@[j],
        forall|idx: int|
            prior@.len() <= idx < hits@.len() ==> (#[trigger] hits@[idx]).wf() && exists|k: int|
                mesh_hit_witness(hits@[idx], entity, orig_scaled@, dir@, *tr, *m, k),
        forall|k: int|
            0 <= k < m.num_tris() && #[trigger] mesh_tri_hits(orig_scaled@, dir@, *tr, *m, k)
                ==> exists|idx: int|
                prior@.len() <= idx < hits@.len() && mesh_hit_witness(
                    hits@[idx],
                    entity,
                    orig_scaled@,
                    dir@,
                    *tr,
                    *m,
                    k,
                ),
{
    let mut hits = prior;
    let ghost base = hits@.len();
    let nt = m.indices.len() / 3;
    let mut k: usize = 0;
    while k < nt
        invariant
            tr.wf(),
            m.wf(),
            in_range(orig_scaled@, MAX_PICK_COORD as int),
            in_range(dir@, MAX_PICK_COORD as int),
            k <= nt,
            nt == m.num_tris(),
            hits@.len() >= base,
            base == prior@.len(),
            forall|j: int| 0 <= j < base ==> hits@[j] == prior@[j],
            forall|idx: int|
                base <= idx < hits@.len() ==> (#[trigger] hits@[idx]).wf() && exists|k2: int|
                    mesh_hit_witness(hits@[idx], entity, orig_scaled@, dir@, *tr, *m, k2),
            forall|k2: int|
                0 <= k2 < k && #[trigger] mesh_tri_hits(orig_scaled@, dir@, *tr, *m, k2)
                    ==> exists|idx: int|
                    base <= idx < hits@.len() && mesh_hit_witness(
                        hits@[idx],
                        entity,
                        orig_scaled@,
                        dir@,
                        *tr,
                        *m,
                        k2,
                    ),
        decreases nt - k,
    {
        let i0 = m.indices[3 * k] as usize;
        let i1 = m.indices[3 * k + 1] as usize;
        let i2 = m.indices[3 * k + 2] as usize;
        let wv0 = tr.apply_scaled(m.vertices[i0].position);
        let wv1 = tr.apply_scaled(m.vertices[i1].position);
        let wv2 = tr.apply_scaled(m.vertices[i2].position);
        proof {
            assert(wv0@ == world_tri_vertex(*tr, *m, k as int, 0));
            assert(wv1@ == world_tri_vertex(*tr, *m, k as int, 1));
            assert(wv2@ == world_tri_vertex(*tr, *m, k as int, 2));
        }
        match ray_triangle_intersect(orig_scaled, dir, wv0, wv1, wv2) {
            Some(th) => {
                proof {
                    lemma_mul_bound(th.point.den as int, tr.rotation.scale as int, 6755399441055744, 4);
                }
                let den2 = th.point.den * (tr.rotation.scale as i128);
                proof {
                    assert(den2 > 0) by (nonlinear_arith)
                        requires
                            den2 == th.point.den * (tr.rotation.scale as i128),
                            th.point.den > 0,
                            tr.rotation.scale >= 1,
                    ;
                    assert(den2 as int == -(plane_den(
                        dir@,
                        world_tri_vertex(*tr, *m, k as int, 0),
                        world_tri_vertex(*tr, *m, k as int, 1),
                        world_tri_vertex(*tr, *m, k as int, 2),
                    ) * (tr.rotation.scale as int))) by (nonlinear_arith)
                        requires
                            den2 == th.point.den * (tr.rotation.scale as i128),
                            th.point.den as int == -plane_den(
                                dir@,
                                world_tri_vertex(*tr, *m, k as int, 0),
                                world_tri_vertex(*tr, *m, k as int, 1),
                                world_tri_vertex(*tr, *m, k as int, 2),
                            ),
                    ;
                }
                let h = RayHit {
                    entity,
                    t_num: th.t_num,
                    point: RatPoint { nx: th.point.nx, ny: th.point.ny, nz: th.point.nz, den: den2 },
                };
                let ghost prev = hits@;
                hits.push(h);
                proof {
                    assert(h.wf());
                    assert(mesh_hit_witness(h, entity, orig_scaled@, dir@, *tr, *m, k as int));
                    assert(hits@[prev.len() as int] == h);
                    assert forall|idx: int|
                        base <= idx < hits@.len() implies (#[trigger] hits@[idx]).wf() && exists|
                        k2: int,
                    | mesh_hit_witness(hits@[idx], entity, orig_scaled@, dir@, *tr, *m, k2) by {
                        if idx < prev.len() {
                            assert(hits@[idx] == prev[idx]);
                            assert((#[trigger] prev[idx]).wf());
                            let k2 = choose|k2: int|
                                mesh_hit_witness(prev[idx], entity, orig_scaled@, dir@, *tr, *m, k2);
                            assert(mesh_hit_witness(hits@[idx], entity, orig_scaled@, dir@, *tr, *m, k2));
                        } else {
                            assert(hits@[idx] == h);
                            assert(mesh_hit_witness(
                                hits@[idx],
                                entity,
                                orig_scaled@,
                                dir@,
                                *tr,
                                *m,
                                k as int,
                            ));
                        }
                    }
                    assert forall|k2: int|
                        0 <= k2 < k + 1 && #[trigger] mesh_tri_hits(orig_scaled@, dir@, *tr, *m, k2)
                            implies exists|idx: int|
                            base <= idx < hits@.len() && mesh_hit_witness(
                                hits@[idx],
                                entity,
                                orig_scaled@,
                                dir@,
                                *tr,
                                *m,
                                k2,
                            ) by {
                        if k2 == k as int {
                            assert(mesh_hit_witness(
                                hits@[prev.len() as int],
                                entity,
                                orig_scaled@,
                                dir@,
                                *tr,
                                *m,
                                k2,
                            ));
                        } else {
                            let idx = choose|idx: int|
                                base <= idx < prev.len() && mesh_hit_witness(
                                    prev[idx],
                                    entity,
                                    orig_scaled@,
                                    dir@,
                                    *tr,
                                    *m,
                                    k2,
                                );
                            assert(hits@[idx] == prev[idx]);
                            assert(mesh_hit_witness(hits@[idx], entity, orig_scaled@, dir@, *tr, *m, k2));
                        }
                    }
                }
            },
            None => {
                proof {
                    assert(!mesh_tri_hits(orig_scaled@, dir@, *tr, *m, k as int));
                }
            },
        }
        k = k + 1;
    }
    hits
}

/// Tests the ray against every triangle of every mesh of one model and
/// appends the hits; everything already in `hits` stays untouched.
#[verifier::rlimit(60)]
#[verifier::spinoff_prover]
fn collect_model_hits(
    entity: EntityId,
    orig_scaled: Vec3,
    dir: Vec3,
    tr: &Transform,
    mdl: &crate::mesh::Model,
    prior: Vec<RayHit>,
) -> (hits: Vec<RayHit>)
    requires
        tr.wf(),
        mdl.wf(),
        in_range(orig_scaled@, MAX_PICK_COORD as int),
        in_range(dir@, MAX_PICK_COORD as int),
    ensures
        hits@.len() >= prior@.len(),
        forall|j: int| 0 <= j < prior@.len() ==> hits@[j] == prior@[j],
        forall|idx: int|
            prior@.len() <= idx < hits@.len() ==> (#[trigger] hits@[idx]).wf() && exists|
            mi: int,
            k: int,
        | model_hit_witness(hits@[idx], entity, orig_scaled@, dir@, *tr, *mdl, mi, k),
        forall|mi: int, k: int|
            0 <= mi < mdl.meshes@.len() && 0 <= k < mdl.meshes@[mi].num_tris()
                && #[trigger] mesh_tri_hits(orig_scaled@, dir@, *tr, mdl.meshes@[mi], k)
                ==> exists|idx: int|
                prior@.len() <= idx < hits@.len() && model_hit_witness(
                    hits@[idx],
                    entity,
                    orig_scaled@,
                    dir@,
                    *tr,
                    *mdl,
                    mi,
                    k,
                ),
{
    let mut hits = prior;
    let ghost base = hits@.len();
    let nm = mdl.meshes.len();
    let mut mi: usize = 0;
    while mi < nm
        invariant
            tr.wf(),
            mdl.wf(),
            in_range(orig_scaled@, MAX_PICK_COORD as int),
            in_range(dir@, MAX_PICK_COORD as int),
            mi <= nm,
            nm == mdl.meshes@.len(),
            hits@.len() >= base,
            base == prior@.len(),
            forall|j: int| 0 <= j < base ==> hits@[j] == prior@[j],
            forall|idx: int|
                base <= idx < hits@.len() ==> (#[trigger] hits@[idx]).wf() && exists|
                mi2: int,
                k: int,
            | model_hit_witness(hits@[idx], entity, orig_scaled@, dir@, *tr, *mdl, mi2, k),
            forall|mi2: int, k: int|
                0 <= mi2 < mi && 0 <= k < mdl.meshes@[mi2].num_tris()
                    && #[trigger] mesh_tri_hits(orig_scaled@, dir@, *tr, mdl.meshes@[mi2], k)
                    ==> exists|idx: int|
                    base <= idx < hits@.len() && model_hit_witness(
                        hits@[idx],
                        entity,
                        orig_scaled@,
                        dir@,
                        *tr,
                        *mdl,
                        mi2,
                        k,
                    ),
        decreases nm - mi,
    {
        let ghost pre_call = hits@;
        hits = collect_mesh_hits(entity, orig_scaled, dir, tr, &mdl.meshes[mi], hits);
        proof {
            let msh = mdl.meshes@[mi as int];
            assert forall|idx: int|
                base <= idx < hits@.len() implies (#[trigger] hits@[idx]).wf() && exists|
                mi2: int,
                k: int,
            | model_hit_witness(hits@[idx], entity, orig_scaled@, dir@, *tr, *mdl, mi2, k) by {
                if idx < pre_call.len() {
                    assert(hits@[idx] == pre_call[idx]);
                    assert((#[trigger] pre_call[idx]).wf());
                    let (mi2, k) = choose|mi2: int, k: int|
                        model_hit_witness(pre_call[idx], entity, orig_scaled@, dir@, *tr, *mdl, mi2, k);
                    assert(model_hit_witness(hits@[idx], entity, orig_scaled@, dir@, *tr, *mdl, mi2, k));
                } else {
                    let k = choose|k: int|
                        mesh_hit_witness(hits@[idx], entity, orig_scaled@, dir@, *tr, msh, k);
                    assert(model_hit_witness(
                        hits@[idx],
                        entity,
                        orig_scaled@,
                        dir@,
                        *tr,
                        *mdl,
                        mi as int,
                        k,
                    ));
                }
            }
            assert forall|mi2: int, k: int|
                0 <= mi2 < mi + 1 && 0 <= k < mdl.meshes@[mi2].num_tris()
                    && #[trigger] mesh_tri_hits(orig_scaled@, dir@, *tr, mdl.meshes@[mi2], k)
                    implies exists|idx: int|
                    base <= idx < hits@.len() && model_hit_witness(
                        hits@[idx],
                        entity,
                        orig_scaled@,
                        dir@,
                        *tr,
                        *mdl,
                        mi2,
                        k,
                    ) by {
                if mi2 == mi as int {
                    let idx = choose|idx: int|
                        pre_call.len() <= idx < hits@.len() && mesh_hit_witness(
                            hits@[idx],
                            entity,
                            orig_scaled@,
                            dir@,
                            *tr,
                            msh,
                            k,
                        );
                    assert(model_hit_witness(hits@[idx], entity, orig_scaled@, dir@, *tr, *mdl, mi2, k));
                } else {
                    let idx = choose|idx: int|
                        base <= idx < pre_call.len() && model_hit_witness(
                            pre_call[idx],
                            entity,
                            orig_scaled@,
                            dir@,
                            *tr,
                            *mdl,
                            mi2,
                            k,
                        );
                    assert(hits@[idx] == pre_call[idx]);
                    assert(model_hit_witness(hits@[idx], entity, orig_scaled@, dir@, *tr, *mdl, mi2, k));
                }
            }
        }
        mi = mi + 1;
    }
    hits
}

/// Whether candidate entity `e` carries what every pick candidate must
/// carry: a readable transform component, a readable model component, and a
/// model asset the cache knows.
pub open spec fn candidate_ok(
    cm: ComponentManager<SceneComponent>,
    am: AssetManager<crate::mesh::Model>,
    e: EntityId,
    transform_ty: ComponentTypeId,
    model_ty: ComponentTypeId,
) -> bool {
    &&& cm.can_read(e as int, transform_ty as int)
    &&& cm.component_value(e as int, transform_ty as int) is Transform
    &&& cm.can_read(e as int, model_ty as int)
    &&& cm.component_value(e as int, model_ty as int) is Model
    &&& 0 <= (cm.component_value(e as int, model_ty as int)->Model_0).asset_handle.id() < am@.len()
}

/// The failure a candidate is charged with, checked in order: its transform,
/// then its model component, then the asset the model names.
pub open spec fn candidate_error(
    cm: ComponentManager<SceneComponent>,
    am: AssetManager<crate::mesh::Model>,
    e: EntityId,
    transform_ty: ComponentTypeId,
    model_ty: ComponentTypeId,
) -> PickError {
    if !(cm.can_read(e as int, transform_ty as int) && cm.component_value(
        e as int,
        transform_ty as int,
    ) is Transform) {
        PickError::MissingTransform
    } else if !(cm.can_read(e as int, model_ty as int) && cm.component_value(
        e as int,
        model_ty as int,
    ) is Model) {
        PickError::MissingModel
    } else {
        PickError::UnknownAsset
    }
}

/// The transform a candidate entity carries.
pub open spec fn candidate_transform(
    cm: ComponentManager<SceneComponent>,
    e: EntityId,
    transform_ty: ComponentTypeId,
) -> Transform {
    cm.component_value(e as int, transform_ty as int)->Transform_0
}

/// The model asset a candidate entity's model component names.
pub open spec fn candidate_model(
    cm: ComponentManager<SceneComponent>,
    am: AssetManager<crate::mesh::Model>,
    e: EntityId,
    model_ty: ComponentTypeId,
) -> crate::mesh::Model {
    am@[(cm.component_value(e as int, model_ty as int)->Model_0).asset_handle.id()]
}

/// Triangle `k` of mesh `mi` of candidate `e`'s model, carried into world
/// space by `e`'s transform, is struck by the ray from `o` along `d`, and
/// `h` is exactly its hit record.
pub open spec fn candidate_hit_witness(
    h: RayHit,
    cm: ComponentManager<SceneComponent>,
    am: AssetManager<crate::mesh::Model>,
    o: Vec3i,
    d: Vec3i,
    e: EntityId,
    transform_ty: ComponentTypeId,
    model_ty: ComponentTypeId,
    mi: int,
    k: int,
) -> bool {
    let tr = candidate_transform(cm, e, transform_ty);
    model_hit_witness(
        h,
        e,
        vscale(tr.rotation.scale as int, o),
        d,
        tr,
        candidate_model(cm, am, e, model_ty),
        mi,
        k,
    )
}

/// Every transform component a store holds is well-formed: what the scene
/// guarantees by constructing transforms through their constructors.
pub open spec fn transforms_wf(
    cm: ComponentManager<SceneComponent>,
    transform_ty: ComponentTypeId,
) -> bool {
    forall|e: int|
        0 <= e < cm.num_entities() && (#[trigger] cm.component_value(e, transform_ty as int))
            is Transform ==> cm.component_value(e, transform_ty as int)->Transform_0.wf()
}

/// Every model asset a cache holds is well-formed: what loaders guarantee by
/// building meshes through `Mesh::new`.
pub open spec fn assets_wf(am: AssetManager<crate::mesh::Model>) -> bool {
    forall|i: int| 0 <= i < am@.len() ==> (#[trigger] am@[i]).wf()
}


/// Everything a successful pick promises of its hit list: every hit is
/// well-formed and lies on the ray, the list is ordered by ascending ray
/// parameter — for one ray, ascending distance from its origin — and it is
/// complete: every struck triangle of every candidate contributes a hit.
pub open spec fn picked_hits_ok(
    hits: Seq<RayHit>,
    cm: ComponentManager<SceneComponent>,
    am: AssetManager<crate::mesh::Model>,
    entities: Seq<EntityId>,
    o: Vec3i,
    d: Vec3i,
    transform_ty: ComponentTypeId,
    model_ty: ComponentTypeId,
) -> bool {
    &&& forall|idx: int|
        0 <= idx < hits.len() ==> (#[trigger] hits[idx]).wf() && hit_on_ray(hits[idx], o, d)
    &&& forall|i: int, mi: int, k: int|
        0 <= i < entities.len() && #[trigger] candidate_tri_hits(
            cm,
            am,
            o,
            d,
            entities[i],
            transform_ty,
            model_ty,
            mi,
            k,
        ) ==> exists|h: RayHit|
            #![auto]
            hits.contains(h) && candidate_hit_witness(
                h,
                cm,
                am,
                o,
                d,
                entities[i],
                transform_ty,
                model_ty,
                mi,
                k,
            )
}

/// `picked_hits_ok`, with the ordering requirement besides.
pub open spec fn sorted_picked_hits_ok(
    hits: Seq<RayHit>,
    cm: ComponentManager<SceneComponent>,
    am: AssetManager<crate::mesh::Model>,
    entities: Seq<EntityId>,
    o: Vec3i,
    d: Vec3i,
    transform_ty: ComponentTypeId,
    model_ty: ComponentTypeId,
) -> bool {
    &&& picked_hits_ok(hits, cm, am, entities, o, d, transform_ty, model_ty)
    &&& forall|k: int, l: int| 0 <= k < l < hits.len() ==> hit_le(hits[k], hits[l])
}

/// Resolves one pick candidate: its transform, and the model asset its
/// model component names. Fails with the candidate's charge when anything
/// is missing, checked in the fixed order transform, model, asset.
fn fetch_candidate<'a>(
    cm: &ComponentManager<SceneComponent>,
    am: &'a AssetManager<crate::mesh::Model>,
    e: EntityId,
    transform_ty: ComponentTypeId,
    model_ty: ComponentTypeId,
) -> (r: Result<(Transform, &'a crate::asset_manager::Asset<crate::mesh::Model>), PickError>)
    requires
        cm.wf(),
        am.wf(),
        transforms_wf(*cm, transform_ty),
        assets_wf(*am),
    ensures
        r is Ok <==> candidate_ok(*cm, *am, e, transform_ty, model_ty),
        r matches Ok(p) ==> {
            &&& p.0 == candidate_transform(*cm, e, transform_ty)
            &&& p.1.asset == candidate_model(*cm, *am, e, model_ty)
            &&& p.0.wf()
            &&& p.1.asset.wf()
        },
        r matches Err(err) ==> err == candidate_error(*cm, *am, e, transform_ty, model_ty),
{
    let tr = match cm.get_component(e, transform_ty) {
        Ok(c) => match c.as_transform() {
            Some(t) => *t,
            None => {
                proof {
                    assert(*c == cm.component_value(e as int, transform_ty as int));
                    assert(!(cm.component_value(e as int, transform_ty as int) is Transform));
                    assert(!candidate_ok(*cm, *am, e, transform_ty, model_ty));
                }
                return Err(PickError::MissingTransform);
            },
        },
        Err(_) => {
            proof {
                assert(!candidate_ok(*cm, *am, e, transform_ty, model_ty));
            }
            return Err(PickError::MissingTransform);
        },
    };
    let mdl_comp = match cm.get_component(e, model_ty) {
        Ok(c) => match c.as_model() {
            Some(m) => *m,
            None => {
                proof {
                    assert(!candidate_ok(*cm, *am, e, transform_ty, model_ty));
                    assert(candidate_error(*cm, *am, e, transform_ty, model_ty)
                        == PickError::MissingModel);
                }
                return Err(PickError::MissingModel);
            },
        },
        Err(_) => {
            proof {
                assert(!candidate_ok(*cm, *am, e, transform_ty, model_ty));
                assert(candidate_error(*cm, *am, e, transform_ty, model_ty)
                    == PickError::MissingModel);
            }
            return Err(PickError::MissingModel);
        },
    };
    proof {
        assert(mdl_comp == cm.component_value(e as int, model_ty as int)->Model_0);
    }
    match am.get_asset(mdl_comp.asset_handle) {
        Some(a) => {
            proof {
                assert(candidate_ok(*cm, *am, e, transform_ty, model_ty));
                assert(a.asset == candidate_model(*cm, *am, e, model_ty));
                assert((am@[mdl_comp.asset_handle.id()]).wf());
                assert(tr == cm.component_value(e as int, transform_ty as int)->Transform_0);
                assert(tr.wf());
            }
            Ok((tr, a))
        },
        None => {
            proof {
                assert(!candidate_ok(*cm, *am, e, transform_ty, model_ty));
                assert(candidate_error(*cm, *am, e, transform_ty, model_ty)
                    == PickError::UnknownAsset);
            }
            Err(PickError::UnknownAsset)
        },
    }
}

/// Tests the ray against every candidate's geometry, in candidate order,
/// with no ordering among the hits yet. The first candidate that lacks a
/// readable transform or model component, or names an unknown asset, fails
/// the pick.
#[verifier::rlimit(100)]
#[verifier::spinoff_prover]
fn collect_scene_hits(
    position: Vec3,
    direction: Vec3,
    entities: &Vec<EntityId>,
    cm: &ComponentManager<SceneComponent>,
    am: &AssetManager<crate::mesh::Model>,
    transform_ty: ComponentTypeId,
    model_ty: ComponentTypeId,
) -> (r: Result<Vec<RayHit>, PickError>)
    requires
        in_range(position@, RAY_COORD_LIMIT as int),
        in_range(direction@, RAY_COORD_LIMIT as int),
        cm.wf(),
        am.wf(),
        transforms_wf(*cm, transform_ty),
        assets_wf(*am),
    ensures
        r is Ok <==> (forall|i: int|
            0 <= i < entities@.len() ==> candidate_ok(
                *cm,
                *am,
                #[trigger] entities@[i],
                transform_ty,
                model_ty,
            )),
        r matches Err(err) ==> exists|i: int|
            {
                &&& 0 <= i < entities@.len()
                &&& !candidate_ok(*cm, *am, #[trigger] entities@[i], transform_ty, model_ty)
                &&& err == candidate_error(*cm, *am, entities@[i], transform_ty, model_ty)
                &&& forall|j: int|
                    0 <= j < i ==> candidate_ok(
                        *cm,
                        *am,
                        #[trigger] entities@[j],
                        transform_ty,
                        model_ty,
                    )
            },
        r matches Ok(hits) ==> picked_hits_ok(
            hits@,
            *cm,
            *am,
            entities@,
            position@,
            direction@,
            transform_ty,
            model_ty,
        ),
{
    let mut hits: Vec<RayHit> = Vec::new();
    let n = entities.len();
    let mut i: usize = 0;
    while i < n
        invariant
            in_range(position@, RAY_COORD_LIMIT as int),
            in_range(direction@, RAY_COORD_LIMIT as int),
            cm.wf(),
            am.wf(),
            transforms_wf(*cm, transform_ty),
            assets_wf(*am),
            i <= n,
            n == entities@.len(),
            forall|j: int|
                0 <= j < i ==> candidate_ok(
                    *cm,
                    *am,
                    #[trigger] entities@[j],
                    transform_ty,
                    model_ty,
                ),
            forall|idx: int|
                0 <= idx < hits@.len() ==> (#[trigger] hits@[idx]).wf() && hit_on_ray(
                    hits@[idx],
                    position@,
                    direction@,
                ),
            forall|j: int, mi: int, k: int|
                0 <= j < i && #[trigger] candidate_tri_hits(
                    *cm,
                    *am,
                    position@,
                    direction@,
                    entities@[j],
                    transform_ty,
                    model_ty,
                    mi,
                    k,
                ) ==> exists|idx: int|
                    0 <= idx < hits@.len() && candidate_hit_witness(
                        hits@[idx],
                        *cm,
                        *am,
                        position@,
                        direction@,
                        entities@[j],
                        transform_ty,
                        model_ty,
                        mi,
                        k,
                    ),
        decreases n - i,
    {
        let e = entities[i];
        let (tr, asset) = match fetch_candidate(cm, am, e, transform_ty, model_ty) {
            Ok(p) => p,
            Err(err) => {
                return Err(err);
            },
        };
        proof {
            assert(tr == candidate_transform(*cm, e, transform_ty));
            assert(asset.asset == candidate_model(*cm, *am, e, model_ty));
            lemma_mul_bound(tr.rotation.scale as int, position.x as int, 4, 16384);
            lemma_mul_bound(tr.rotation.scale as int, position.y as int, 4, 16384);
            lemma_mul_bound(tr.rotation.scale as int, position.z as int, 4, 16384);
        }
        let os = Vec3::new(
            tr.rotation.scale * position.x,
            tr.rotation.scale * position.y,
            tr.rotation.scale * position.z,
        );
        proof {
            assert(os@ == vscale(tr.rotation.scale as int, position@));
        }
        let ghost pre_call = hits@;
        hits = collect_model_hits(e, os, direction, &tr, &asset.asset, hits);
        proof {
            assert forall|idx: int|
                0 <= idx < hits@.len() implies (#[trigger] hits@[idx]).wf() && hit_on_ray(
                hits@[idx],
                position@,
                direction@,
            ) by {
                if idx < pre_call.len() {
                    assert(hits@[idx] == pre_call[idx]);
                    assert((#[trigger] pre_call[idx]).wf());
                } else {
                    let (mi, k) = choose|mi: int, k: int|
                        model_hit_witness(hits@[idx], e, os@, direction@, tr, asset.asset, mi, k);
                    lemma_tri_hit_on_ray(
                        hits@[idx],
                        e,
                        position@,
                        direction@,
                        tr,
                        asset.asset.meshes@[mi],
                        k,
                    );
                }
            }
            assert forall|j: int, mi: int, k: int|
                0 <= j < i + 1 && #[trigger] candidate_tri_hits(
                    *cm,
                    *am,
                    position@,
                    direction@,
                    entities@[j],
                    transform_ty,
                    model_ty,
                    mi,
                    k,
                ) implies exists|idx: int|
                    0 <= idx < hits@.len() && candidate_hit_witness(
                        hits@[idx],
                        *cm,
                        *am,
                        position@,
                        direction@,
                        entities@[j],
                        transform_ty,
                        model_ty,
                        mi,
                        k,
                    ) by {
                if j < i {
                    let idx = choose|idx: int|
                        0 <= idx < pre_call.len() && candidate_hit_witness(
                            pre_call[idx],
                            *cm,
                            *am,
                            position@,
                            direction@,
                            entities@[j],
                            transform_ty,
                            model_ty,
                            mi,
                            k,
                        );
                    assert(hits@[idx] == pre_call[idx]);
                    assert(candidate_hit_witness(
                        hits@[idx],
                        *cm,
                        *am,
                        position@,
                        direction@,
                        entities@[j],
                        transform_ty,
                        model_ty,
                        mi,
                        k,
                    ));
                } else {
                    let idx = choose|idx: int|
                        pre_call.len() <= idx < hits@.len() && model_hit_witness(
                            hits@[idx],
                            e,
                            os@,
                            direction@,
                            tr,
                            asset.asset,
                            mi,
                            k,
                        );
                    assert(candidate_hit_witness(
                        hits@[idx],
                        *cm,
                        *am,
                        position@,
                        direction@,
                        entities@[j],
                        transform_ty,
                        model_ty,
                        mi,
                        k,
                    ));
                }
            }
        }
        i = i + 1;
    }
    proof {
        assert forall|j: int, mi: int, k: int|
            0 <= j < entities@.len() && #[trigger] candidate_tri_hits(
                *cm,
                *am,
                position@,
                direction@,
                entities@[j],
                transform_ty,
                model_ty,
                mi,
                k,
            ) implies exists|h: RayHit|
                #![auto]
                hits@.contains(h) && candidate_hit_witness(
                    h,
                    *cm,
                    *am,
                    position@,
                    direction@,
                    entities@[j],
                    transform_ty,
                    model_ty,
                    mi,
                    k,
                ) by {
            let idx = choose|idx: int|
                0 <= idx < hits@.len() && candidate_hit_witness(
                    hits@[idx],
                    *cm,
                    *am,
                    position@,
                    direction@,
                    entities@[j],
                    transform_ty,
                    model_ty,
                    mi,
                    k,
                );
            assert(hits@.contains(hits@[idx]));
        }
        assert(picked_hits_ok(
            hits@,
            *cm,
            *am,
            entities@,
            position@,
            direction@,
            transform_ty,
            model_ty,
        ));
    }
    Ok(hits)
}

impl Ray {
    /// Tests this ray against the geometry of every candidate entity and
    /// hands back every hit, ordered by ascending distance from the ray
    /// origin. Every candidate must carry a readable transform and model
    /// component and name a known asset; the first candidate that does not
    /// fails the whole pick, loudly. The hit list is exactly one record per
    /// struck world-space triangle of the candidates' meshes — sound and
    /// complete — and an empty list is the normal "nothing hit" outcome.
    #[verifier::rlimit(100)]
    #[verifier::spinoff_prover]
    pub fn test(
        &self,
        entities: &Vec<EntityId>,
        cm: &ComponentManager<SceneComponent>,
        am: &AssetManager<crate::mesh::Model>,
        transform_ty: ComponentTypeId,
        model_ty: ComponentTypeId,
    ) -> (r: Result<Vec<RayHit>, PickError>)
        requires
            self.wf(),
            cm.wf(),
            am.wf(),
            transforms_wf(*cm, transform_ty),
            assets_wf(*am),
        ensures
            r is Ok <==> (forall|i: int|
                0 <= i < entities@.len() ==> candidate_ok(
                    *cm,
                    *am,
                    #[trigger] entities@[i],
                    transform_ty,
                    model_ty,
                )),
            r matches Err(err) ==> exists|i: int|
                {
                    &&& 0 <= i < entities@.len()
                    &&& !candidate_ok(*cm, *am, #[trigger] entities@[i], transform_ty, model_ty)
                    &&& err == candidate_error(*cm, *am, entities@[i], transform_ty, model_ty)
                    &&& forall|j: int|
                        0 <= j < i ==> candidate_ok(
                            *cm,
                            *am,
                            #[trigger] entities@[j],
                            transform_ty,
                            model_ty,
                        )
                },
            r matches Ok(hits) ==> sorted_picked_hits_ok(
                hits@,
                *cm,
                *am,
                entities@,
                self.position@,
                self.direction@,
                transform_ty,
                model_ty,
            ),
    {
        let mut hits = match collect_scene_hits(
            self.position,
            self.direction,
            entities,
            cm,
            am,
            transform_ty,
            model_ty,
        ) {
            Ok(h) => h,
            Err(err) => {
                return Err(err);
            },
        };
        let ghost unsorted = hits@;
        sort_hits(&mut hits);
        proof {
            assert forall|idx: int|
                0 <= idx < hits@.len() implies (#[trigger] hits@[idx]).wf() && hit_on_ray(
                hits@[idx],
                self.position@,
                self.direction@,
            ) by {
                assert(hits@.contains(hits@[idx]));
                assert(unsorted.contains(hits@[idx]));
                let uidx = choose|uidx: int|
                    0 <= uidx < unsorted.len() && unsorted[uidx] == hits@[idx];
                assert((#[trigger] unsorted[uidx]).wf());
            }
            assert forall|i: int, mi: int, k: int|
                0 <= i < entities@.len() && #[trigger] candidate_tri_hits(
                    *cm,
                    *am,
                    self.position@,
                    self.direction@,
                    entities@[i],
                    transform_ty,
                    model_ty,
                    mi,
                    k,
                ) implies exists|h: RayHit|
                    #![auto]
                    hits@.contains(h) && candidate_hit_witness(
                        h,
                        *cm,
                        *am,
                        self.position@,
                        self.direction@,
                        entities@[i],
                        transform_ty,
                        model_ty,
                        mi,
                        k,
                    ) by {
                let idx = choose|idx: int|
                    0 <= idx < unsorted.len() && candidate_hit_witness(
                        unsorted[idx],
                        *cm,
                        *am,
                        self.position@,
                        self.direction@,
                        entities@[i],
                        transform_ty,
                        model_ty,
                        mi,
                        k,
                    );
                assert(unsorted.contains(unsorted[idx]));
                assert(hits@.contains(unsorted[idx]));
            }
            assert(sorted_picked_hits_ok(
                hits@,
                *cm,
                *am,
                entities@,
                self.position@,
                self.direction@,
                transform_ty,
                model_ty,
            ));
        }
        Ok(hits)
    }
}

/// The ray from `o` along `d` strikes triangle `k` of mesh `mi` of candidate
/// `e`'s model, in world space.
pub open spec fn candidate_tri_hits(
    cm: ComponentManager<SceneComponent>,
    am: AssetManager<crate::mesh::Model>,
    o: Vec3i,
    d: Vec3i,
    e: EntityId,
    transform_ty: ComponentTypeId,
    model_ty: ComponentTypeId,
    mi: int,
    k: int,
) -> bool {
    let tr = candidate_transform(cm, e, transform_ty);
    let mdl = candidate_model(cm, am, e, model_ty);
    &&& 0 <= mi < mdl.meshes@.len()
    &&& 0 <= k < mdl.meshes@[mi].num_tris()
    &&& mesh_tri_hits(vscale(tr.rotation.scale as int, o), d, tr, mdl.meshes@[mi], k)
}

} // verus!
