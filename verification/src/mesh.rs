//! The mesh data model consumed by the picking engine: an immutable list of
//! triangles given by indexed vertices. Loaders produce these values once;
//! afterwards they are only read.

use vstd::prelude::*;

use crate::geometry::in_range;
use crate::geometry::Vec3;
use crate::geometry::Vec3i;
use crate::transform::POS_COORD_LIMIT;

verus! {

/// One mesh vertex. Only the position takes part in picking; per-vertex
/// shading attributes live with the renderer.
#[derive(Clone, Copy, PartialEq, Eq, Structural, Debug)]
pub struct Vertex {
    /// Model-space position.
    pub position: Vec3,
}

/// Why a mesh description was rejected.
#[derive(Clone, Copy, PartialEq, Eq, Structural, Debug)]
pub enum MeshError {
    /// The index list's length is not a multiple of three.
    RaggedTriangleList,
    /// An index points past the end of the vertex list.
    IndexOutOfBounds,
    /// A vertex coordinate exceeds the model-space bound.
    VertexOutOfRange,
}

/// An indexed triangle list: every three consecutive indices name the
/// corners of one triangle, in winding order.
pub struct Mesh {
    /// The vertex pool.
    pub vertices: Vec<Vertex>,
    /// Triangle corners, three per triangle, each an index into `vertices`.
    pub indices: Vec<u32>,
    /// The length of `indices`.
    pub num_indices: u32,
    /// The mesh's name, as the loader reported it.
    pub name: String,
    /// Which material of the owning model this mesh uses, if any.
    pub material_id: Option<usize>,
}

impl Mesh {
    /// The triangle list is complete (a multiple of three indices), every
    /// index lands in the vertex pool, every vertex is within the
    /// model-space bound, and the recorded index count is right.
    pub open spec fn wf(&self) -> bool {
        &&& self.indices@.len() % 3 == 0
        &&& self.num_indices == self.indices@.len()
        &&& forall|i: int|
            0 <= i < self.indices@.len() ==> (#[trigger] self.indices@[i]) < self.vertices@.len()
        &&& forall|i: int|
            0 <= i < self.vertices@.len() ==> in_range(
                (#[trigger] self.vertices@[i]).position@,
                POS_COORD_LIMIT as int,
            )
    }

    /// How many triangles the mesh holds.
    pub open spec fn num_tris(&self) -> int {
        self.indices@.len() as int / 3
    }

    /// Corner `j` of triangle `k`, in model space.
    pub open spec fn tri_vertex(&self, k: int, j: int) -> Vec3i {
        self.vertices@[self.indices@[3 * k + j] as int].position@
    }

    /// Builds a mesh after checking the shape of the data: the triangle
    /// list must be complete, the indices in bounds, and the vertices within
    /// the model-space coordinate bound. Each failure is reported exactly
    /// when its condition holds, checked in that order.
    pub fn new(vertices: Vec<Vertex>, indices: Vec<u32>, name: String, material_id: Option<
        usize,
    >) -> (r: Result<Mesh, MeshError>)
        requires
            indices@.len() <= u32::MAX,
        ensures
            r is Ok <==> {
                &&& indices@.len() % 3 == 0
                &&& forall|i: int|
                    0 <= i < indices@.len() ==> (#[trigger] indices@[i]) < vertices@.len()
                &&& forall|i: int|
                    0 <= i < vertices@.len() ==> in_range(
                        (#[trigger] vertices@[i]).position@,
                        POS_COORD_LIMIT as int,
                    )
            },
            r matches Ok(m) ==> {
                &&& m.wf()
                &&& m.vertices@ == vertices@
                &&& m.indices@ == indices@
                &&& m.name@ == name@
                &&& m.material_id == material_id
            },
    {
        if indices.len() % 3 != 0 {
            return Err(MeshError::RaggedTriangleList);
        }
        let mut i: usize = 0;
        while i < indices.len()
            invariant
                i <= indices@.len(),
                forall|j: int| 0 <= j < i ==> (#[trigger] indices@[j]) < vertices@.len(),
            decreases indices@.len() - i,
        {
            if indices[i] as usize >= vertices.len() {
                return Err(MeshError::IndexOutOfBounds);
            }
            i = i + 1;
        }
        let mut v: usize = 0;
        while v < vertices.len()
            invariant
                v <= vertices@.len(),
                forall|j: int|
                    0 <= j < v ==> in_range(
                        (#[trigger] vertices@[j]).position@,
                        POS_COORD_LIMIT as int,
                    ),
            decreases vertices@.len() - v,
        {
            let p = vertices[v].position;
            if p.x < -POS_COORD_LIMIT || p.x > POS_COORD_LIMIT || p.y < -POS_COORD_LIMIT || p.y
                > POS_COORD_LIMIT || p.z < -POS_COORD_LIMIT || p.z > POS_COORD_LIMIT {
                return Err(MeshError::VertexOutOfRange);
            }
            v = v + 1;
        }
        let num_indices = indices.len() as u32;
        Ok(Mesh { vertices, indices, num_indices, name, material_id })
    }
}

/// A named material slot; shading data itself lives with the renderer.
pub struct Material {
    /// The material's name, as the loader reported it.
    pub name: String,
}

/// A loaded model: the meshes to test rays against, the material table they
/// refer into, and the model's name.
pub struct Model {
    /// The model's meshes.
    pub meshes: Vec<Mesh>,
    /// The model's materials.
    pub materials: Vec<Material>,
    /// The model's name, usually its source path.
    pub name: String,
}

impl Model {
    /// Every mesh of the model is well-formed.
    pub open spec fn wf(&self) -> bool {
        forall|i: int| 0 <= i < self.meshes@.len() ==> (#[trigger] self.meshes@[i]).wf()
    }
}

} // verus!
