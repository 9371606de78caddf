//! Index buffers of meshes.

use vstd::prelude::*;

verus! {

/// The six indices that split the four-vertex face starting at vertex
/// `4 * q` into two triangles sharing the diagonal `4q + 1`-`4q + 2`.
pub open spec fn quad_face_indices(q: int) -> Seq<int> {
    seq![4 * q, 4 * q + 2, 4 * q + 1, 4 * q + 1, 4 * q + 2, 4 * q + 3]
}

/// Mesh construction helpers.
pub struct MeshUtilities;

impl MeshUtilities {
    /// The index buffer of a box of four-vertex faces: `vertex_count / 2 * 3`
    /// indices, two triangles per face.
    pub fn quad_indices(vertex_count: usize) -> (r: Vec<u32>)
        requires
            (vertex_count / 2 * 3) % 6 == 0,
            vertex_count <= u32::MAX,
            vertex_count / 2 * 3 <= usize::MAX,
        ensures
            r@.len() == vertex_count / 2 * 3,
            forall|i: int| 0 <= i < r@.len() ==> r@[i] as int == #[trigger] quad_face_indices(i / 6)[i % 6],
    {
        let index_count = vertex_count / 2 * 3;
        let mut indices: Vec<u32> = Vec::new();
        let mut i: usize = 0;
        let mut j: u32 = 0;
        while i < index_count
            invariant
                index_count == vertex_count / 2 * 3,
                index_count % 6 == 0,
                vertex_count <= u32::MAX,
                i % 6 == 0,
                i <= index_count,
                j as int == 4 * (i / 6),
                indices@.len() == i,
                forall|k: int| 0 <= k < i ==> indices@[k] as int == #[trigger] quad_face_indices(k / 6)[k % 6],
            decreases index_count - i,
        {
            assert(j + 3 <= u32::MAX) by {
                assert(i + 6 <= index_count);
                assert(4 * (i / 6) + 4 <= 4 * (index_count / 6));
                assert(index_count / 6 <= vertex_count / 4);
            }
            indices.push(j);
            indices.push(j + 2);
            indices.push(j + 1);
            indices.push(j + 1);
            indices.push(j + 2);
            indices.push(j + 3);
            assert forall|k: int| 0 <= k < i + 6 implies indices@[k] as int == #[trigger] quad_face_indices(
                k / 6,
            )[k % 6] by {
                if k >= i {
                    assert(k / 6 == i / 6);
                }
            }
            i += 6;
            j += 4;
        }
        indices
    }

    /// The index buffer of a triangulated mesh: the three corners of each
    /// face in turn.
    pub fn triangle_indices(faces: &Vec<[u32; 3]>) -> (r: Vec<u32>)
        requires
            faces@.len() * 3 <= usize::MAX,
        ensures
            r@.len() == faces@.len() * 3,
            forall|i: int| 0 <= i < r@.len() ==> r@[i] == #[trigger] faces@[i / 3]@[i % 3],
    {
        let mut indices: Vec<u32> = Vec::new();
        let mut f: usize = 0;
        while f < faces.len()
            invariant
                f <= faces@.len(),
                indices@.len() == f * 3,
                forall|i: int| 0 <= i < f * 3 ==> indices@[i] == #[trigger] faces@[i / 3]@[i % 3],
            decreases faces@.len() - f,
        {
            let face = faces[f];
            indices.push(face[0]);
            indices.push(face[1]);
            indices.push(face[2]);
            assert forall|i: int| 0 <= i < (f + 1) * 3 implies indices@[i] == #[trigger] faces@[i / 3]@[i % 3] by {
                if i >= f * 3 {
                    assert(i / 3 == f);
                }
            }
            f += 1;
        }
        indices
    }
}

} // verus!
