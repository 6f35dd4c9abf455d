//! The static geometry that a bundle uploads: one quad, drawn as two
//! triangles.

use vstd::prelude::*;
use crate::protocol::{HALF, MINUS_HALF, ZERO};

verus! {

/// Number of components that make up one vertex position.
pub const COMPONENTS_PER_VERTEX: usize = 3;

/// A vertex buffer with the index buffer that draws from it.
///
/// `vertices` holds the components of the positions one after the other, as
/// bit patterns of single-precision numbers. `indices` holds, in drawing
/// order, the numbers of the vertices to use.
#[derive(Debug, PartialEq, Eq)]
pub struct GeometryBuffers {
    pub vertices: Vec<u32>,
    pub indices: Vec<u16>,
}

/// Number of whole vertices that a component array holds.
pub open spec fn vertex_count(vertices: Seq<u32>) -> nat {
    vertices.len() / (COMPONENTS_PER_VERTEX as nat)
}

/// Every index names a vertex of the array.
pub open spec fn indices_in_bounds(indices: Seq<u16>, vertices: Seq<u32>) -> bool {
    forall|i: int| 0 <= i < indices.len() ==> (#[trigger] indices[i] as nat) < vertex_count(vertices)
}

/// Corner positions of the quad: top left, bottom left, bottom right, top
/// right, each as `x`, `y`, `z`.
pub open spec fn quad_vertices() -> Seq<u32> {
    seq![
        MINUS_HALF, HALF, ZERO,
        MINUS_HALF, MINUS_HALF, ZERO,
        HALF, MINUS_HALF, ZERO,
        HALF, HALF, ZERO,
    ]
}

/// The two triangles that cover the quad.
pub open spec fn quad_indices() -> Seq<u16> {
    seq![0u16, 1u16, 2u16, 2u16, 3u16, 0u16]
}

impl GeometryBuffers {
    /// The buffers fit together: the vertex array holds whole vertices only,
    /// and no index points past its end.
    pub open spec fn well_formed(self) -> bool {
        &&& self.vertices@.len() % (COMPONENTS_PER_VERTEX as nat) == 0
        &&& indices_in_bounds(self.indices@, self.vertices@)
    }

    /// The quad that a bundle draws.
    pub fn quad() -> (geometry: GeometryBuffers)
        ensures
            geometry.vertices@ == quad_vertices(),
            geometry.indices@ == quad_indices(),
            geometry.well_formed(),
    {
        let vertices: Vec<u32> = vec![
            MINUS_HALF, HALF, ZERO,
            MINUS_HALF, MINUS_HALF, ZERO,
            HALF, MINUS_HALF, ZERO,
            HALF, HALF, ZERO,
        ];
        let indices: Vec<u16> = vec![0, 1, 2, 2, 3, 0];
        GeometryBuffers { vertices, indices }
    }
}

} // verus!
