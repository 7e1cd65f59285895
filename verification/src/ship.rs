//! The observer's craft.

use vstd::prelude::*;

verus! {

/// The vertices of the craft, in tenths of a world unit: the nose, the three
/// corners of the stern, the two wing tips, the canopy and the fin.
pub open spec fn ship_vertices() -> Seq<(i32, i32, i32)> {
    seq![
        tenths(0, 0, 15),
        tenths(-5, 3, -5),
        tenths(5, 3, -5),
        tenths(0, -3, -5),
        tenths(-12, 0, 0),
        tenths(12, 0, 0),
        tenths(0, 5, 3),
        tenths(0, 6, -8),
    ]
}

/// A point given by its three coordinates in tenths of a world unit.
pub open spec fn tenths(x: int, y: int, z: int) -> (i32, i32, i32) {
    (x as i32, y as i32, z as i32)
}

/// The triangles of the craft: two on top, two below, two on the sides, the
/// stern, the two wings and the two halves of the fin.
pub open spec fn ship_indices() -> Seq<u32> {
    seq![
        0, 1, 6, 0, 6, 2,
        0, 3, 1, 0, 2, 3,
        1, 3, 6, 2, 6, 3,
        1, 2, 3,
        0, 4, 1, 0, 2, 5,
        6, 7, 1, 6, 2, 7,
    ]
}

/// The observer's craft: its vertices, in tenths of a world unit, and its
/// triangle list.
pub fn create_ship() -> (mesh: (Vec<(i32, i32, i32)>, Vec<u32>))
    ensures
        mesh.0@ == ship_vertices(),
        mesh.1@ == ship_indices(),
        mesh.0.len() == 8,
        mesh.1.len() == 33,
        forall|k: int| 0 <= k < mesh.1.len() ==> mesh.1[k] < mesh.0.len(),
{
    let vertices: Vec<(i32, i32, i32)> = vec![
        (0, 0, 15),
        (-5, 3, -5),
        (5, 3, -5),
        (0, -3, -5),
        (-12, 0, 0),
        (12, 0, 0),
        (0, 5, 3),
        (0, 6, -8),
    ];
    let indices: Vec<u32> = vec![
        0, 1, 6, 0, 6, 2,
        0, 3, 1, 0, 2, 3,
        1, 3, 6, 2, 6, 3,
        1, 2, 3,
        0, 4, 1, 0, 2, 5,
        6, 7, 1, 6, 2, 7,
    ];
    assert(vertices@ =~= ship_vertices());
    assert(indices@ =~= ship_indices());
    (vertices, indices)
}

} // verus!
