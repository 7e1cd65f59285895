//! The background shell: a cube around the observer.

use vstd::prelude::*;

verus! {

/// Half the edge of the background cube, in world units.
pub const SKYBOX_SIZE: i32 = 150;

/// The corners of the cube: the four of the front face counter-clockwise
/// from the lower left, then the four of the back face in the same order.
pub open spec fn skybox_vertices() -> Seq<(i32, i32, i32)> {
    let s = SKYBOX_SIZE;
    let m = (-SKYBOX_SIZE) as i32;
    seq![(m, m, s), (s, m, s), (s, s, s), (m, s, s), (m, m, m), (s, m, m), (s, s, m), (m, s, m)]
}

/// Two triangles for each face: front, back, left, right, top, bottom.
pub open spec fn skybox_indices() -> Seq<u32> {
    seq![
        0, 1, 2, 0, 2, 3,
        5, 4, 7, 5, 7, 6,
        4, 0, 3, 4, 3, 7,
        1, 5, 6, 1, 6, 2,
        3, 2, 6, 3, 6, 7,
        4, 5, 1, 4, 1, 0,
    ]
}

/// The background cube: its corners, in world units, and its triangle list.
pub fn create_skybox() -> (mesh: (Vec<(i32, i32, i32)>, Vec<u32>))
    ensures
        mesh.0@ == skybox_vertices(),
        mesh.1@ == skybox_indices(),
        mesh.0.len() == 8,
        mesh.1.len() == 36,
        forall|k: int| 0 <= k < mesh.1.len() ==> mesh.1[k] < mesh.0.len(),
{
    let s: i32 = SKYBOX_SIZE;
    let m: i32 = -SKYBOX_SIZE;
    let vertices: Vec<(i32, i32, i32)> = vec![
        (m, m, s),
        (s, m, s),
        (s, s, s),
        (m, s, s),
        (m, m, m),
        (s, m, m),
        (s, s, m),
        (m, s, m),
    ];
    let indices: Vec<u32> = vec![
        0, 1, 2, 0, 2, 3,
        5, 4, 7, 5, 7, 6,
        4, 0, 3, 4, 3, 7,
        1, 5, 6, 1, 6, 2,
        3, 2, 6, 3, 6, 7,
        4, 5, 1, 4, 1, 0,
    ];
    assert(vertices@ =~= skybox_vertices());
    assert(indices@ =~= skybox_indices());
    (vertices, indices)
}

} // verus!
