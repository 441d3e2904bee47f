use vstd::prelude::*;

use crate::vertex_buffer::{buf_wf, BufModel, IndexType, LinearRgba, Position, Vertex, VertexBuffers};

verus! {

/// How the index list is to be read. The assembler always produces a
/// triangle list: every three consecutive indices name one triangle.
#[derive(Clone, Copy, Debug, PartialEq, Eq, Structural)]
pub enum PrimitiveTopology {
    TriangleList,
}

/// The mathematical value of a [`Mesh`].
#[verifier::ext_equal]
pub ghost struct MeshModel {
    pub topology: PrimitiveTopology,
    pub positions: Seq<Position>,
    pub colors: Seq<LinearRgba>,
    pub indices: Seq<IndexType>,
}

/// The renderer-facing mesh: parallel position and color attribute arrays,
/// indexed by a 32-bit index list under the declared topology.
#[derive(Debug)]
pub struct Mesh {
    pub topology: PrimitiveTopology,
    pub positions: Vec<Position>,
    pub colors: Vec<LinearRgba>,
    pub indices: Vec<IndexType>,
}

impl View for Mesh {
    type V = MeshModel;

    open spec fn view(&self) -> MeshModel {
        MeshModel {
            topology: self.topology,
            positions: self.positions@,
            colors: self.colors@,
            indices: self.indices@,
        }
    }
}

/// The mesh invariant: the attribute arrays run in parallel and every index
/// refers into them.
pub open spec fn mesh_wf(m: MeshModel) -> bool {
    &&& m.positions.len() == m.colors.len()
    &&& forall|i: int| 0 <= i < m.indices.len() ==> (#[trigger] m.indices[i]) < m.positions.len()
}

/// The mesh assembled from a buffer pair: each vertex is split into its two
/// attributes, the index list is taken over unchanged, and the topology is
/// a triangle list.
pub open spec fn assembled(b: BufModel) -> MeshModel {
    MeshModel {
        topology: PrimitiveTopology::TriangleList,
        positions: b.vertices.map_values(|v: Vertex| v.position),
        colors: b.vertices.map_values(|v: Vertex| v.color),
        indices: b.indices,
    }
}

impl VertexBuffers {
    /// Consumes the pair and assembles the renderer-facing mesh: the vertex
    /// list is projected into the two parallel attribute arrays and the
    /// index list is carried over as-is. Total over every pair; the empty
    /// pair yields the degenerate, renderable-as-nothing mesh.
    pub fn convert(self) -> (m: Mesh)
        ensures
            m@ == assembled(self@),
    {
        let n: usize = self.vertices.len();
        let mut positions: Vec<Position> = Vec::new();
        let mut colors: Vec<LinearRgba> = Vec::new();
        let mut k: usize = 0;
        while k < n
            invariant
                k <= n,
                n == self@.vertices.len(),
                positions@.len() == k,
                colors@.len() == k,
                forall|j: int| 0 <= j < k ==> #[trigger] positions@[j]
                    == self@.vertices[j].position,
                forall|j: int| 0 <= j < k ==> #[trigger] colors@[j] == self@.vertices[j].color,
            decreases n - k,
        {
            let v = self.vertices[k];
            positions.push(v.position);
            colors.push(v.color);
            k += 1;
        }
        proof {
            assert(positions@ =~= self@.vertices.map_values(|v: Vertex| v.position));
            assert(colors@ =~= self@.vertices.map_values(|v: Vertex| v.color));
        }
        let m = Mesh {
            topology: PrimitiveTopology::TriangleList,
            positions,
            colors,
            indices: self.indices,
        };
        proof {
            assert(m@ =~= assembled(self@));
        }
        m
    }
}

/// Assembly consistency: for any well-formed buffer pair, both attribute
/// arrays of the assembled mesh are exactly as long as the pair's vertex
/// list, and every mesh index is within their range.
pub proof fn lemma_assembly_consistent(b: BufModel)
    requires
        buf_wf(b),
    ensures
        assembled(b).positions.len() == b.vertices.len(),
        assembled(b).colors.len() == b.vertices.len(),
        mesh_wf(assembled(b)),
{
}

} // verus!
