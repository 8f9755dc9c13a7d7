use vstd::prelude::*;

use crate::error::TerrainError;

verus! {

/// A per-vertex normal with integer components. The library only ever
/// emits the constant up-vector (0, 1, 0): a deliberate simplification in
/// place of geometric per-triangle normals, kept explicit rather than
/// silently corrected.
#[derive(Clone, Copy, Debug, PartialEq, Eq, Structural)]
pub struct Normal {
    pub x: i32,
    pub y: i32,
    pub z: i32,
}

/// The constant up-vector (0, 1, 0).
pub open spec fn up_normal() -> Normal {
    Normal { x: 0, y: 1, z: 0 }
}

impl Normal {
    /// The constant up-vector (0, 1, 0).
    pub fn up() -> (n: Normal)
        ensures
            n == up_normal(),
    {
        Normal { x: 0, y: 1, z: 0 }
    }
}

/// How a mesh's index list is to be read by a renderer. Terrain meshes are
/// always triangle strips: after the first two indices, every further index
/// forms one triangle with the two before it.
#[derive(Clone, Copy, Debug, PartialEq, Eq, Structural)]
pub enum MeshTopology {
    TriangleStrip,
}

/// One renderable mesh, one per strip of the terrain grid: the full
/// (shared) vertex position buffer, one normal per vertex, and the strip's
/// vertex index list. The vertex payload `V` is whatever point type the
/// caller renders with; this library never reads inside it.
pub struct TerrainMesh<V> {
    pub positions: Vec<V>,
    pub normals: Vec<Normal>,
    pub indices: Vec<u32>,
    pub topology: MeshTopology,
}

/// A fresh copy of the shared vertex buffer for one mesh.
fn copy_vertices<V: Copy>(src: &Vec<V>) -> (out: Vec<V>)
    ensures
        out@ == src@,
{
    let mut out: Vec<V> = Vec::new();
    let mut i: usize = 0;
    while i < src.len()
        invariant
            i <= src@.len(),
            out@ == src@.subrange(0, i as int),
        decreases src@.len() - i,
    {
        out.push(src[i]);
        i = i + 1;
    }
    proof {
        assert(out@ =~= src@);
    }
    out
}

/// One normal per vertex, every one the constant up-vector. The index list
/// is accepted for signature parity with a geometric computation but never
/// consulted: the simplification documented on [`Normal`].
pub fn compute_normals<V>(coordinates: &Vec<V>, _indices: &Vec<u32>) -> (normals: Vec<Normal>)
    ensures
        normals@.len() == coordinates@.len(),
        forall|i: int| 0 <= i < normals@.len() ==> #[trigger] normals@[i] == up_normal(),
{
    let mut normals: Vec<Normal> = Vec::new();
    let mut i: usize = 0;
    while i < coordinates.len()
        invariant
            i <= coordinates@.len(),
            normals@.len() == i,
            forall|k: int| 0 <= k < normals@.len() ==> #[trigger] normals@[k] == up_normal(),
        decreases coordinates@.len() - i,
    {
        normals.push(Normal::up());
        i = i + 1;
    }
    normals
}

/// One mesh per strip, each bundling the full shared vertex buffer, a
/// matching buffer of up-vector normals, and that strip's index list,
/// tagged as a triangle strip. A pure data transformation: it never fails.
pub fn generate_terrain_mesh_strips<V: Copy>(
    coordinates: &Vec<V>,
    strips: &Vec<Vec<u32>>,
) -> (result: Result<Vec<TerrainMesh<V>>, TerrainError>)
    ensures
        result is Ok,
        result matches Ok(meshes) ==> {
            &&& meshes@.len() == strips@.len()
            &&& forall|i: int|
                0 <= i < meshes@.len() ==> #[trigger] meshes@[i].positions@ == coordinates@
            &&& forall|i: int|
                0 <= i < meshes@.len() ==> #[trigger] meshes@[i].normals@.len()
                    == coordinates@.len()
            &&& forall|i: int, j: int|
                0 <= i < meshes@.len() && 0 <= j < coordinates@.len()
                    ==> #[trigger] meshes@[i].normals@[j] == up_normal()
            &&& forall|i: int| 0 <= i < meshes@.len() ==> #[trigger] meshes@[i].indices@ == strips@[i]@
            &&& forall|i: int|
                0 <= i < meshes@.len() ==> #[trigger] meshes@[i].topology
                    == MeshTopology::TriangleStrip
        },
{
    let mut meshes: Vec<TerrainMesh<V>> = Vec::new();
    let mut i: usize = 0;
    while i < strips.len()
        invariant
            i <= strips@.len(),
            meshes@.len() == i,
            forall|k: int|
                0 <= k < meshes@.len() ==> #[trigger] meshes@[k].positions@ == coordinates@,
            forall|k: int|
                0 <= k < meshes@.len() ==> #[trigger] meshes@[k].normals@.len()
                    == coordinates@.len(),
            forall|k: int, j: int|
                0 <= k < meshes@.len() && 0 <= j < coordinates@.len()
                    ==> #[trigger] meshes@[k].normals@[j] == up_normal(),
            forall|k: int| 0 <= k < meshes@.len() ==> #[trigger] meshes@[k].indices@ == strips@[k]@,
            forall|k: int|
                0 <= k < meshes@.len() ==> #[trigger] meshes@[k].topology
                    == MeshTopology::TriangleStrip,
        decreases strips@.len() - i,
    {
        let strip_indices = copy_vertices(&strips[i]);
        let normals = compute_normals(coordinates, &strip_indices);
        let mesh = TerrainMesh {
            positions: copy_vertices(coordinates),
            normals,
            indices: strip_indices,
            topology: MeshTopology::TriangleStrip,
        };
        meshes.push(mesh);
        i = i + 1;
    }
    Ok(meshes)
}

} // verus!
