//! Indexed meshes: a list of vertices and the index list that strings them
//! into triangles.
use vstd::prelude::*;

verus! {

/// A mesh whose triangles are given by indices into its vertex list.
pub struct Mesh<V> {
    vertices: std::vec::Vec<V>,
    indices: std::vec::Vec<u32>,
}

impl<V> View for Mesh<V> {
    type V = (Seq<V>, Seq<u32>);

    /// The vertex list and the index list.
    closed spec fn view(&self) -> (Seq<V>, Seq<u32>) {
        (self.vertices@, self.indices@)
    }
}

/// Every index names a vertex of the list.
pub open spec fn indices_valid<V>(vertices: Seq<V>, indices: Seq<u32>) -> bool {
    forall|i: int| 0 <= i < indices.len() ==> #[trigger] indices[i] < vertices.len()
}

/// The vertices in index order: entry `i` is the vertex that index `i`
/// names.
pub open spec fn expanded<V>(vertices: Seq<V>, indices: Seq<u32>) -> Seq<V> {
    Seq::new(indices.len(), |i: int| vertices[indices[i] as int])
}

impl<V> Mesh<V> {
    /// Every index names a vertex of the mesh.
    #[verifier::type_invariant]
    spec fn inv(&self) -> bool {
        indices_valid(self.vertices@, self.indices@)
    }


    /// The mesh of the given vertex and index lists, or `None` where an
    /// index names no vertex.
    pub fn from_parts(vertices: std::vec::Vec<V>, indices: std::vec::Vec<u32>) -> (mesh: Option<
        Self,
    >)
        ensures
            mesh is Some <==> indices_valid(vertices@, indices@),
            mesh matches Some(m) ==> m@.0 == vertices@ && m@.1 == indices@,
    {
        let n = vertices.len();
        for i in 0..indices.len()
            invariant
                n == vertices@.len(),
                forall|j: int| 0 <= j < i ==> #[trigger] indices@[j] < vertices@.len(),
        {
            if indices[i] as usize >= n {
                return None;
            }
        }
        Some(Mesh { vertices, indices })
    }

    /// The vertices in index order, one per index.
    pub fn vertices(&self) -> (out: std::vec::Vec<V>)
        where
            V: Copy,
        ensures
            indices_valid(self@.0, self@.1),
            out@ == expanded(self@.0, self@.1),
    {
        proof {
            use_type_invariant(self);
        }
        let mut out: std::vec::Vec<V> = std::vec::Vec::new();
        for i in 0..self.indices.len()
            invariant
                indices_valid(self.vertices@, self.indices@),
                out@ =~= expanded(self.vertices@, self.indices@.take(i as int)),
        {
            let index = self.indices[i] as usize;
            out.push(self.vertices[index]);
            assert(self.indices@.take(i + 1) =~= self.indices@.take(i as int).push(
                self.indices@[i as int],
            ));
        }
        assert(self.indices@.take(self.indices@.len() as int) =~= self.indices@);
        out
    }
}

} // verus!
