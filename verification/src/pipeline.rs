//! Fixed-function geometry of the rendering pipeline.
//!
//! The scene is always one full-screen quad: four corner vertices and
//! two triangles.  All visual change comes from the fragment program
//! and the parameter record, never from geometry, so the index buffer
//! is a constant of the pipeline.  The vertex positions themselves are
//! 32-bit floating-point corner coordinates and live with the embedder.

use vstd::prelude::*;

verus! {

/// Corner count of the quad; the vertex buffer holds this many
/// two-component positions.
pub const QUAD_VERTEX_COUNT: usize = 4;

/// Index count of the quad: two triangles, drawn as a triangle list.
pub const QUAD_INDEX_COUNT: usize = 6;

/// The index buffer of the full-screen quad: two triangles over the
/// four corner vertices, wound consistently so back-face culling keeps
/// both.
pub fn quad_indices() -> (v: Vec<u16>)
    ensures
        v@ == seq![0u16, 1u16, 2u16, 0u16, 2u16, 3u16],
        v@.len() == QUAD_INDEX_COUNT,
        forall|i: int| 0 <= i < v@.len() ==> v@[i] < QUAD_VERTEX_COUNT,
{
    let v = vec![0u16, 1, 2, 0, 2, 3];
    proof {
        assert(v@ =~= seq![0u16, 1u16, 2u16, 0u16, 2u16, 3u16]);
    }
    v
}

} // verus!
