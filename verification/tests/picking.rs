use playground::asset_manager::AssetManager;
use playground::component::ComponentManager;
use playground::components::Model;
use playground::components::SceneComponent;
use playground::geometry::Vec3;
use playground::mesh;
use playground::mesh::Mesh;
use playground::mesh::MeshError;
use playground::mesh::Vertex;
use playground::pick::PickError;
use playground::ray::Ray;
use playground::ray::Triangle;
use playground::transform::Rotation;
use playground::transform::Transform;

#[test]
fn test_ray_hit() {
    let ray = Ray::new(Vec3::new(0, 5, 0), Vec3::new(0, 0, 1));
    let triangle = Triangle(Vec3::new(0, 6, 1), Vec3::new(1, 4, 1), Vec3::new(-1, 4, 1));
    let result = ray.intersect(&triangle);
    let hit = result.unwrap();
    assert_eq!(hit.point.eq_int_point(0, 5, 1), true);
}

#[test]
fn test_ray_miss() {
    let ray = Ray::new(Vec3::new(0, 10, 0), Vec3::new(0, 0, 1));
    let triangle = Triangle(Vec3::new(0, 6, 1), Vec3::new(1, 4, 1), Vec3::new(-1, 4, 1));
    let result = ray.intersect(&triangle);
    assert_eq!(result.is_none(), true);
}

// The original states this scene in half units; everything here is doubled,
// which leaves every intersection predicate unchanged.
#[test]
fn test_ray_miss_2() {
    let ray = Ray::new(Vec3::new(0, 0, 0), Vec3::new(-1, 0, 0));
    let triangle = Triangle(Vec3::new(-4, 12, 2), Vec3::new(-3, -4, 3), Vec3::new(-2, 8, 2));
    let result = ray.intersect(&triangle);
    assert_eq!(result.is_none(), true);
}

// Doubled for the same reason as `test_ray_miss_2`.
#[test]
fn test_ray_miss_3() {
    let ray = Ray::new(Vec3::new(0, 0, 0), Vec3::new(1, 0, 0));
    let triangle = Triangle(Vec3::new(-4, 12, 2), Vec3::new(-3, -4, -3), Vec3::new(-2, 8, 8));
    let result = ray.intersect(&triangle);
    assert_eq!(result.is_none(), true);
}

#[test]
fn test_ray_cull_backface() {
    let ray = Ray::new(Vec3::new(0, 0, 0), Vec3::new(0, 1, 0));
    let triangle = Triangle(Vec3::new(0, 2, 1), Vec3::new(1, 2, 0), Vec3::new(-1, 2, -1));
    let result = ray.intersect(&triangle);
    assert_eq!(result.is_none(), true);
}

#[test]
fn test_ray_cull_behind() {
    let ray = Ray::new(Vec3::new(0, 0, 0), Vec3::new(0, 1, 0));
    let triangle = Triangle(Vec3::new(1, -2, 0), Vec3::new(0, -2, 1), Vec3::new(-1, -2, -1));
    let result = ray.intersect(&triangle);
    assert_eq!(result.is_none(), true);
}

// A quarter turn about x then a translation by (5, 5, 5) carries (0, 1, 0)
// to exactly (5, 5, 6).
#[test]
fn test_transform() {
    let p = Vec3::new(0, 1, 0);
    let geo = Transform::new(
        Some(Vec3::new(5, 5, 5)),
        Some(Rotation::from_quaternion(1, 1, 0, 0)),
        None,
    );
    let result = geo.apply_to_point(p);
    assert_eq!(result.eq_int_point(5, 5, 6), true);
}

fn square_mesh_at(z: i64) -> Mesh {
    // One triangle facing the negative z direction, large enough to be hit
    // at (0, 0, z) by a ray along positive z.
    let vertices = vec![
        Vertex { position: Vec3::new(0, 4, z) },
        Vertex { position: Vec3::new(4, -4, z) },
        Vertex { position: Vec3::new(-4, -4, z) },
    ];
    let indices = vec![0u32, 1, 2];
    Mesh::new(vertices, indices, "tri".to_string(), None).unwrap()
}

fn model_of(meshes: Vec<Mesh>) -> mesh::Model {
    mesh::Model { meshes, materials: Vec::new(), name: "model".to_string() }
}

// Hits come back ordered by distance from the ray origin: the nearer
// entity's hit first, and both points are exact.
#[test]
fn hits_are_distance_ordered() {
    let mut cm: ComponentManager<SceneComponent> = ComponentManager::new();
    let transform_ty = cm.register_component().unwrap();
    let model_ty = cm.register_component().unwrap();
    let mut am: AssetManager<mesh::Model> = AssetManager::new();

    let near_asset = am.create_asset(model_of(vec![square_mesh_at(2)]));
    let far_asset = am.create_asset(model_of(vec![square_mesh_at(5)]));

    let far = cm.add_entity().unwrap();
    let near = cm.add_entity().unwrap();
    for (e, handle) in [(far, far_asset), (near, near_asset)] {
        cm.add_component(e, transform_ty, SceneComponent::Transform(Transform::new(None, None, None)))
            .unwrap();
        cm.add_component(e, model_ty, SceneComponent::Model(Model { asset_handle: handle, animation: None }))
            .unwrap();
    }

    let ray = Ray::new(Vec3::new(0, 0, 0), Vec3::new(0, 0, 1));
    let candidates = vec![far, near];
    let hits = ray.test(&candidates, &cm, &am, transform_ty, model_ty).unwrap();
    assert_eq!(hits.len(), 2);
    assert_eq!(hits[0].entity, near);
    assert_eq!(hits[1].entity, far);
    assert!(hits[0].point.eq_int_point(0, 0, 2));
    assert!(hits[1].point.eq_int_point(0, 0, 5));
}

// A translated, rotated floor is still hit exactly: the floor's mesh lies
// in its model space and the entity's transform carries it into the world.
#[test]
fn pick_through_transform() {
    let mut cm: ComponentManager<SceneComponent> = ComponentManager::new();
    let transform_ty = cm.register_component().unwrap();
    let model_ty = cm.register_component().unwrap();
    let mut am: AssetManager<mesh::Model> = AssetManager::new();
    let asset = am.create_asset(model_of(vec![square_mesh_at(0)]));
    let e = cm.add_entity().unwrap();
    // A floor at height y = -3: the mesh's plane z = 0 turned to face up.
    let tr = Transform::new(
        Some(Vec3::new(0, -3, 0)),
        Some(Rotation::from_quaternion(1, 1, 0, 0)),
        None,
    );
    cm.add_component(e, transform_ty, SceneComponent::Transform(tr)).unwrap();
    cm.add_component(e, model_ty, SceneComponent::Model(Model { asset_handle: asset, animation: None }))
        .unwrap();
    // Cast straight down from above the floor.
    let ray = Ray::new(Vec3::new(0, 2, 0), Vec3::new(0, -1, 0));
    let hits = ray.test(&vec![e], &cm, &am, transform_ty, model_ty).unwrap();
    assert_eq!(hits.len(), 1);
    assert!(hits[0].point.eq_int_point(0, -3, 0));
}

#[test]
fn pick_fails_loudly_without_components() {
    let mut cm: ComponentManager<SceneComponent> = ComponentManager::new();
    let transform_ty = cm.register_component().unwrap();
    let model_ty = cm.register_component().unwrap();
    let am: AssetManager<mesh::Model> = AssetManager::new();
    let e = cm.add_entity().unwrap();
    let ray = Ray::new(Vec3::new(0, 0, 0), Vec3::new(0, 0, 1));
    assert_eq!(
        ray.test(&vec![e], &cm, &am, transform_ty, model_ty),
        Err(PickError::MissingTransform)
    );
    cm.add_component(e, transform_ty, SceneComponent::Transform(Transform::new(None, None, None)))
        .unwrap();
    assert_eq!(
        ray.test(&vec![e], &cm, &am, transform_ty, model_ty),
        Err(PickError::MissingModel)
    );
    let mut other: AssetManager<mesh::Model> = AssetManager::new();
    let stray = other.create_asset(model_of(vec![]));
    cm.add_component(e, model_ty, SceneComponent::Model(Model { asset_handle: stray, animation: None }))
        .unwrap();
    assert_eq!(
        ray.test(&vec![e], &cm, &am, transform_ty, model_ty),
        Err(PickError::UnknownAsset)
    );
}

#[test]
fn mesh_validation() {
    let v = vec![Vertex { position: Vec3::new(0, 0, 0) }];
    assert_eq!(
        Mesh::new(v.clone(), vec![0u32, 0], "m".to_string(), None).err(),
        Some(MeshError::RaggedTriangleList)
    );
    assert_eq!(
        Mesh::new(v.clone(), vec![0u32, 1, 0], "m".to_string(), None).err(),
        Some(MeshError::IndexOutOfBounds)
    );
    let big = vec![Vertex { position: Vec3::new(5000, 0, 0) }];
    assert_eq!(
        Mesh::new(big, vec![0u32, 0, 0], "m".to_string(), None).err(),
        Some(MeshError::VertexOutOfRange)
    );
    assert!(Mesh::new(v, vec![0u32, 0, 0], "m".to_string(), None).is_ok());
}

// A ray with a zero direction, or a degenerate triangle, never hits.
#[test]
fn degenerate_inputs_never_hit() {
    let ray = Ray::new(Vec3::new(0, 0, 0), Vec3::new(0, 0, 0));
    let triangle = Triangle(Vec3::new(0, 6, 1), Vec3::new(1, 4, 1), Vec3::new(-1, 4, 1));
    assert!(ray.intersect(&triangle).is_none());

    let ray = Ray::new(Vec3::new(0, 5, 0), Vec3::new(0, 0, 1));
    let flat = Triangle(Vec3::new(0, 0, 1), Vec3::new(1, 1, 1), Vec3::new(2, 2, 1));
    assert!(ray.intersect(&flat).is_none());
}
