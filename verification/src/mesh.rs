//! Render meshes as acoustic geometry.
//!
//! The acoustic simulation wants plain triangles: a vertex list, triples of
//! vertex numbers, and a material for each triple. A render mesh names its
//! triangles through an index list that is read either three by three or as
//! a strip. The conversion turns both into the same triples, and refuses any
//! other reading of the index list.

use vstd::prelude::*;
use crate::spatial::Vec3;

verus! {

/// How an index list is read as primitives.
#[derive(Clone, Copy, PartialEq, Eq, Structural, Debug)]
pub enum PrimitiveTopology {
    PointList,
    LineList,
    LineStrip,
    TriangleList,
    TriangleStrip,
}

/// An index list, in either width.
#[derive(PartialEq, Eq, Debug)]
pub enum Indices {
    U16(Vec<u16>),
    U32(Vec<u32>),
}

/// The values of one vertex attribute: triples of single-precision numbers,
/// or any other layout.
#[derive(PartialEq, Eq, Debug)]
pub enum VertexAttributeValues {
    Float32x3(Vec<Vec3>),
    Other,
}

/// What the conversion reads of a render mesh.
#[derive(PartialEq, Eq, Debug)]
pub struct MeshData {
    pub topology: PrimitiveTopology,
    pub indices: Option<Indices>,
    pub positions: Option<VertexAttributeValues>,
}

/// The acoustic properties of a surface, by name.
#[derive(Clone, Copy, PartialEq, Eq, Structural, Debug)]
pub enum Material {
    Generic,
}

/// A mesh as the acoustic simulation takes it.
#[derive(PartialEq, Eq, Debug)]
pub struct AudioMesh {
    pub vertices: Vec<Vec3>,
    pub triangles: Vec<[u32; 3]>,
    pub materials: Vec<Material>,
    pub material_indices: Vec<u32>,
}

#[derive(Clone, Copy, PartialEq, Eq, Structural, Debug)]
pub enum AudioMeshError {
    /// The mesh has no positions, or not as triples of numbers.
    NoVertices,
    /// The index list is read neither as a triangle list nor as a strip.
    NonTrianglePrimitiveTopology(PrimitiveTopology),
}

impl PrimitiveTopology {
    /// Whether the index list names triangles.
    pub open spec fn is_triangles(self) -> bool {
        self is TriangleList || self is TriangleStrip
    }
}

impl Indices {
    /// The indices as 32-bit numbers.
    pub open spec fn widened(self) -> Seq<u32> {
        match self {
            Indices::U16(narrow) => Seq::new(narrow@.len(), |i: int| narrow@[i] as u32),
            Indices::U32(wide) => wide@,
        }
    }
}

/// How many triangles an index list of `count` indices names.
pub open spec fn triangle_count(topology: PrimitiveTopology, count: nat) -> nat {
    match topology {
        PrimitiveTopology::TriangleList => count / 3,
        PrimitiveTopology::TriangleStrip => if count >= 3 {
            (count - 2) as nat
        } else {
            0
        },
        _ => 0,
    }
}

/// The corners of triangle number `number`. A list takes the indices three by
/// three. A strip takes each index with the two after it, and swaps the first
/// two corners of every second triangle so that all face the same way.
pub open spec fn corners(topology: PrimitiveTopology, indices: Seq<u32>, number: int) -> Seq<u32> {
    match topology {
        PrimitiveTopology::TriangleStrip => if number % 2 == 1 {
            seq![indices[number + 1], indices[number], indices[number + 2]]
        } else {
            seq![indices[number], indices[number + 1], indices[number + 2]]
        },
        _ => seq![indices[3 * number], indices[3 * number + 1], indices[3 * number + 2]],
    }
}

/// Whether `triangles` are the triangles that `indices` names under
/// `topology`.
pub open spec fn triangulates(
    triangles: Seq<[u32; 3]>,
    topology: PrimitiveTopology,
    indices: Seq<u32>,
) -> bool {
    &&& triangles.len() == triangle_count(topology, indices.len())
    &&& forall|t: int|
        0 <= t < triangles.len() ==> (#[trigger] triangles[t])@ == corners(topology, indices, t)
}

impl MeshData {
    /// Whether the positions are there as triples of numbers.
    pub open spec fn has_vertices(self) -> bool {
        self.positions matches Some(VertexAttributeValues::Float32x3(_))
    }

    /// Whether the index list, if there is one, is read as something other
    /// than triangles.
    pub open spec fn has_foreign_topology(self) -> bool {
        self.indices is Some && !self.topology.is_triangles()
    }
}

impl AudioMesh {
    /// Whether this is the acoustic mesh of `mesh`: its vertices in order,
    /// the triangles that its index list names (none without an index list),
    /// and the generic material on every triangle.
    pub open spec fn converts(self, mesh: MeshData) -> bool {
        &&& mesh.positions matches Some(VertexAttributeValues::Float32x3(positions))
        &&& self.vertices@ == positions@
        &&& match mesh.indices {
            Some(indices) => triangulates(self.triangles@, mesh.topology, indices.widened()),
            None => self.triangles@.len() == 0,
        }
        &&& self.materials@ == seq![Material::Generic]
        &&& self.material_indices@ == Seq::new(self.triangles@.len(), |t: int| 0u32)
    }
}

/// Widens an index list to 32 bits.
fn widen(indices: Indices) -> (wide: Vec<u32>)
    ensures
        wide@ == indices.widened(),
{
    match indices {
        Indices::U16(narrow) => {
            let mut wide: Vec<u32> = Vec::new();
            let mut i: usize = 0;
            while i < narrow.len()
                invariant
                    i <= narrow@.len(),
                    wide@ == Seq::new(i as nat, |k: int| narrow@[k] as u32),
                decreases narrow@.len() - i,
            {
                wide.push(narrow[i] as u32);
                i = i + 1;
            }
            wide
        },
        Indices::U32(wide) => wide,
    }
}

/// Reads an index list three by three. Indices left over at the end name no
/// triangle.
fn triangle_list(indices: &Vec<u32>) -> (triangles: Vec<[u32; 3]>)
    ensures
        triangulates(triangles@, PrimitiveTopology::TriangleList, indices@),
{
    let mut triangles: Vec<[u32; 3]> = Vec::new();
    let count = indices.len() / 3;
    let mut t: usize = 0;
    while t < count
        invariant
            indices@.len() <= usize::MAX,
            count == indices@.len() / 3,
            t <= count,
            triangles@.len() == t,
            forall|k: int|
                0 <= k < t ==> (#[trigger] triangles@[k])@ == corners(
                    PrimitiveTopology::TriangleList,
                    indices@,
                    k,
                ),
        decreases count - t,
    {
        let triangle = [indices[3 * t], indices[3 * t + 1], indices[3 * t + 2]];
        assert(triangle@ =~= corners(PrimitiveTopology::TriangleList, indices@, t as int));
        triangles.push(triangle);
        t = t + 1;
    }
    triangles
}

/// Reads an index list as a strip.
fn triangle_strip(indices: &Vec<u32>) -> (triangles: Vec<[u32; 3]>)
    ensures
        triangulates(triangles@, PrimitiveTopology::TriangleStrip, indices@),
{
    let mut triangles: Vec<[u32; 3]> = Vec::new();
    if indices.len() < 3 {
        return triangles;
    }
    let count = indices.len() - 2;
    let mut t: usize = 0;
    while t < count
        invariant
            indices@.len() <= usize::MAX,
            count == indices@.len() - 2,
            t <= count,
            triangles@.len() == t,
            forall|k: int|
                0 <= k < t ==> (#[trigger] triangles@[k])@ == corners(
                    PrimitiveTopology::TriangleStrip,
                    indices@,
                    k,
                ),
        decreases count - t,
    {
        let triangle = if t % 2 == 1 {
            [indices[t + 1], indices[t], indices[t + 2]]
        } else {
            [indices[t], indices[t + 1], indices[t + 2]]
        };
        assert(triangle@ =~= corners(PrimitiveTopology::TriangleStrip, indices@, t as int));
        triangles.push(triangle);
        t = t + 1;
    }
    triangles
}

impl AudioMesh {
    /// Converts a render mesh. An index list that is read as points or lines
    /// is refused first; then a mesh without positions as triples of numbers.
    pub fn try_from(mesh: MeshData) -> (result: Result<AudioMesh, AudioMeshError>)
        ensures
            match result {
                Ok(audio) => !mesh.has_foreign_topology() && mesh.has_vertices() && audio.converts(
                    mesh,
                ),
                Err(AudioMeshError::NonTrianglePrimitiveTopology(topology)) => {
                    mesh.has_foreign_topology() && topology == mesh.topology
                },
                Err(AudioMeshError::NoVertices) => !mesh.has_foreign_topology()
                    && !mesh.has_vertices(),
            },
    {
        let MeshData { topology, indices, positions } = mesh;
        let triangles = match indices {
            Some(indices) => {
                match topology {
                    PrimitiveTopology::TriangleList => {
                        let wide = widen(indices);
                        triangle_list(&wide)
                    },
                    PrimitiveTopology::TriangleStrip => {
                        let wide = widen(indices);
                        triangle_strip(&wide)
                    },
                    _ => {
                        return Err(AudioMeshError::NonTrianglePrimitiveTopology(topology));
                    },
                }
            },
            None => Vec::new(),
        };
        let vertices = match positions {
            Some(VertexAttributeValues::Float32x3(vertices)) => vertices,
            _ => {
                return Err(AudioMeshError::NoVertices);
            },
        };
        let mut materials: Vec<Material> = Vec::new();
        materials.push(Material::Generic);
        let mut material_indices: Vec<u32> = Vec::new();
        let mut t: usize = 0;
        while t < triangles.len()
            invariant
                t <= triangles@.len(),
                material_indices@ == Seq::new(t as nat, |k: int| 0u32),
            decreases triangles@.len() - t,
        {
            material_indices.push(0);
            t = t + 1;
        }
        Ok(AudioMesh { vertices, triangles, materials, material_indices })
    }
}

} // verus!
