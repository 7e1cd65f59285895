//! Mesh topology: for each shape, what every vertex is and how the vertices
//! are joined. A vertex is described by integers (its place on a lattice);
//! turning that place into a position is left to the caller.

use vstd::prelude::*;
use vstd::bytes::{lemma_auto_spec_u32_to_from_le_bytes, spec_u32_to_le_bytes};

verus! {

/// The concatenation, for `i` from 0 up to `n`, of `cell(i)`.
pub open spec fn concat_cells<A>(n: nat, cell: spec_fn(int) -> Seq<A>) -> Seq<A> {
    Seq::new(n, cell).flatten()
}

/// One more cell appends what that cell holds.
pub proof fn lemma_concat_cells_step<A>(n: nat, cell: spec_fn(int) -> Seq<A>)
    ensures
        concat_cells(n + 1, cell) == concat_cells(n, cell) + cell(n as int),
        concat_cells(0, cell) == Seq::<A>::empty(),
{
    assert(Seq::new(n + 1, cell) =~= Seq::new(n, cell).push(cell(n as int)));
    Seq::new(n, cell).lemma_flatten_push(cell(n as int));
    assert(Seq::new(0, cell) =~= Seq::<Seq<A>>::empty());
}

/// The two ends of edge `i` of a closed loop of `segments` vertices.
pub open spec fn orbit_edge(segments: nat, i: int) -> Seq<u32> {
    seq![i as u32, ((i + 1) % (segments as int)) as u32]
}

/// The line list of a closed loop of `segments` vertices: edge after edge,
/// the last one back to vertex 0.
pub open spec fn orbit_indices(segments: nat) -> Seq<u32> {
    concat_cells(segments, |i: int| orbit_edge(segments, i))
}

/// The path of an orbit: a closed loop of `segments` vertices, vertex `i` at
/// `i / segments` of a full turn, and the line list that joins each vertex to
/// the next. Returns the turn step of each vertex and the index list.
pub fn create_orbit(segments: u32) -> (mesh: (Vec<u32>, Vec<u32>))
    ensures
        mesh.0@ == Seq::new(segments as nat, |i: int| i as u32),
        mesh.1@ == orbit_indices(segments as nat),
        mesh.1.len() == 2 * segments,
        forall|k: int| 0 <= k < mesh.1.len() ==> mesh.1[k] < segments,
{
    let mut vertices: Vec<u32> = Vec::new();
    let mut indices: Vec<u32> = Vec::new();
    let ghost cell = |i: int| orbit_edge(segments as nat, i);
    let mut i: u32 = 0;
    while i < segments
        invariant
            i <= segments,
            vertices@ == Seq::new(i as nat, |j: int| j as u32),
        decreases segments - i,
    {
        vertices.push(i);
        assert(vertices@ =~= Seq::new((i + 1) as nat, |j: int| j as u32));
        i += 1;
    }
    let mut i: u32 = 0;
    proof {
        lemma_concat_cells_step(0, cell);
    }
    while i < segments
        invariant
            i <= segments,
            cell == (|i: int| orbit_edge(segments as nat, i)),
            indices@ == concat_cells(i as nat, cell),
            indices.len() == 2 * i,
            forall|k: int| 0 <= k < indices.len() ==> indices[k] < segments,
        decreases segments - i,
    {
        let next: u32 = (i + 1) % segments;
        indices.push(i);
        indices.push(next);
        proof {
            lemma_concat_cells_step(i as nat, cell);
            assert(indices@ =~= concat_cells(i as nat, cell) + orbit_edge(
                segments as nat,
                i as int,
            ));
        }
        i += 1;
    }
    (vertices, indices)
}

/// A vertex of a flat ring: the spoke it lies on, and whether it lies on the
/// outer rim or on the inner one.
#[derive(Debug, Clone, Copy, PartialEq, Eq, Structural)]
pub struct RingPoint {
    pub segment: u32,
    pub outer: bool,
}

/// Vertex `k` of a ring: spokes in order, on each the inner vertex first.
pub open spec fn ring_point(k: int) -> RingPoint {
    RingPoint { segment: (k / 2) as u32, outer: k % 2 == 1 }
}

/// The two triangles that fill the ring between spoke `i` and the next
/// spoke, the last spoke being followed by spoke 0.
pub open spec fn ring_quad(segments: nat, i: int) -> Seq<u32> {
    let next = (i + 1) % (segments as int);
    seq![
        (2 * i) as u32,
        (2 * next) as u32,
        (2 * i + 1) as u32,
        (2 * i + 1) as u32,
        (2 * next) as u32,
        (2 * next + 1) as u32,
    ]
}

/// The triangle list of a ring of `segments` spokes.
pub open spec fn ring_indices(segments: nat) -> Seq<u32> {
    concat_cells(segments, |i: int| ring_quad(segments, i))
}

/// A flat ring of `segments` spokes, spoke `i` at `i / segments` of a full
/// turn, with two vertices on each spoke, and the triangle list that fills
/// it. The vertex numbers must fit the index type.
pub fn create_ring(segments: u32) -> (mesh: (Vec<RingPoint>, Vec<u32>))
    requires
        2 * segments <= 0x1_0000_0000,
    ensures
        mesh.0@ == Seq::new(2 * segments as nat, |k: int| ring_point(k)),
        mesh.1@ == ring_indices(segments as nat),
        mesh.1.len() == 6 * segments,
        forall|k: int| 0 <= k < mesh.1.len() ==> mesh.1[k] < mesh.0.len(),
{
    let mut vertices: Vec<RingPoint> = Vec::new();
    let mut indices: Vec<u32> = Vec::new();
    let ghost cell = |i: int| ring_quad(segments as nat, i);
    let mut i: u32 = 0;
    while i < segments
        invariant
            i <= segments,
            vertices@ == Seq::new(2 * i as nat, |k: int| ring_point(k)),
        decreases segments - i,
    {
        vertices.push(RingPoint { segment: i, outer: false });
        vertices.push(RingPoint { segment: i, outer: true });
        assert(vertices@ =~= Seq::new(2 * (i + 1) as nat, |k: int| ring_point(k)));
        i += 1;
    }
    let mut i: u32 = 0;
    proof {
        lemma_concat_cells_step(0, cell);
    }
    while i < segments
        invariant
            i <= segments,
            2 * segments <= 0x1_0000_0000,
            cell == (|i: int| ring_quad(segments as nat, i)),
            indices@ == concat_cells(i as nat, cell),
            indices.len() == 6 * i,
            forall|k: int| 0 <= k < indices.len() ==> indices[k] < 2 * segments,
        decreases segments - i,
    {
        let next: u32 = (i + 1) % segments;
        let i0: u32 = i * 2;
        let i1: u32 = i0 + 1;
        let n0: u32 = next * 2;
        let n1: u32 = n0 + 1;
        indices.push(i0);
        indices.push(n0);
        indices.push(i1);
        indices.push(i1);
        indices.push(n0);
        indices.push(n1);
        proof {
            lemma_concat_cells_step(i as nat, cell);
            assert(indices@ =~= concat_cells(i as nat, cell) + ring_quad(
                segments as nat,
                i as int,
            ));
        }
        i += 1;
    }
    (vertices, indices)
}

/// A vertex of a sphere: the parallel (`stack`, counted from the north pole)
/// and the meridian (`sector`) that cross at it.
#[derive(Debug, Clone, Copy, PartialEq, Eq, Structural)]
pub struct SpherePoint {
    pub stack: u32,
    pub sector: u32,
}

/// Vertex `k` of a sphere of `sectors` sectors: parallel after parallel, on
/// each parallel the meridians in order, the first one repeated at the end to
/// close the seam.
pub open spec fn sphere_point(sectors: nat, k: int) -> SpherePoint {
    let row = (sectors + 1) as int;
    SpherePoint { stack: (k / row) as u32, sector: (k % row) as u32 }
}

/// The triangles of the cell between parallels `i` and `i + 1` and meridians
/// `j` and `j + 1`. A cell has an upper and a lower triangle, except that the
/// cells at the north pole have no upper one and those at the south pole no
/// lower one.
pub open spec fn sphere_cell(sectors: nat, stacks: nat, i: int, j: int) -> Seq<u32> {
    let k1 = i * (sectors + 1) + j;
    let k2 = k1 + sectors + 1;
    let upper = if i != 0 {
        seq![k1 as u32, k2 as u32, (k1 + 1) as u32]
    } else {
        Seq::<u32>::empty()
    };
    let lower = if i != stacks - 1 {
        seq![(k1 + 1) as u32, k2 as u32, (k2 + 1) as u32]
    } else {
        Seq::<u32>::empty()
    };
    upper + lower
}

/// The triangles between parallels `i` and `i + 1`, cell after cell.
pub open spec fn sphere_band(sectors: nat, stacks: nat, i: int) -> Seq<u32> {
    concat_cells(sectors, |j: int| sphere_cell(sectors, stacks, i, j))
}

/// The triangle list of a sphere, band after band from the north pole.
pub open spec fn sphere_indices(sectors: nat, stacks: nat) -> Seq<u32> {
    concat_cells(stacks, |i: int| sphere_band(sectors, stacks, i))
}

/// How many indices the first `i` bands of a sphere hold.
pub open spec fn sphere_bands_len(sectors: nat, stacks: nat, i: nat) -> int {
    if stacks <= 1 || i == 0 {
        0
    } else if i < stacks {
        3 * sectors * (2 * i - 1)
    } else {
        6 * sectors * (stacks - 1)
    }
}

/// How many indices one cell of band `i` holds.
pub open spec fn sphere_cell_len(stacks: nat, i: int) -> int {
    (if i != 0 { 3int } else { 0int }) + (if i != stacks - 1 { 3int } else { 0int })
}

proof fn lemma_sphere_band_grows(sectors: nat, stacks: nat, i: nat)
    requires
        i < stacks,
    ensures
        sphere_bands_len(sectors, stacks, i + 1) == sphere_bands_len(sectors, stacks, i)
            + sectors * sphere_cell_len(stacks, i as int),
{
    assert(sphere_bands_len(sectors, stacks, i + 1) == sphere_bands_len(sectors, stacks, i)
        + sectors * sphere_cell_len(stacks, i as int)) by (nonlinear_arith)
        requires
            i < stacks,
            sphere_cell_len(stacks, i as int) == (if i != 0 { 3int } else { 0int }) + (if i
                != stacks - 1 { 3int } else { 0int }),
            sphere_bands_len(sectors, stacks, i) == (if stacks <= 1 || i == 0 {
                0
            } else if i < stacks {
                3 * sectors * (2 * i - 1)
            } else {
                6 * sectors * (stacks - 1)
            }),
            sphere_bands_len(sectors, stacks, i + 1) == (if stacks <= 1 || i + 1 == 0 {
                0
            } else if i + 1 < stacks {
                3 * sectors * (2 * (i + 1) - 1)
            } else {
                6 * sectors * (stacks - 1)
            }),
    ;
}

proof fn lemma_sphere_vertex_numbers(sectors: int, stacks: int, i: int, j: int)
    requires
        0 <= i < stacks,
        0 <= j <= sectors,
        (stacks + 1) * (sectors + 1) <= 0x1_0000_0000,
    ensures
        0 <= i * (sectors + 1) + j,
        (i + 1) * (sectors + 1) + j < (stacks + 1) * (sectors + 1),
        (i + 1) * (sectors + 1) + j <= u32::MAX,
        (i + 1) * (sectors + 1) == i * (sectors + 1) + sectors + 1,
{
    assert(0 <= i * (sectors + 1) && (i + 1) * (sectors + 1) + sectors < (stacks + 1) * (sectors
        + 1) && (i + 1) * (sectors + 1) == i * (sectors + 1) + sectors + 1) by (nonlinear_arith)
        requires
            0 <= i < stacks,
            0 <= sectors,
    ;
}

/// A sphere cut into `stacks` bands by parallels and into `sectors` sectors
/// by meridians: its vertices, one for every crossing, and the triangle list
/// that joins them. The vertex numbers must fit the index type.
pub fn create_sphere(sectors: u32, stacks: u32) -> (mesh: (Vec<SpherePoint>, Vec<u32>))
    requires
        (stacks + 1) * (sectors + 1) <= 0x1_0000_0000,
    ensures
        mesh.0@ == Seq::new(
            ((stacks + 1) * (sectors + 1)) as nat,
            |k: int| sphere_point(sectors as nat, k),
        ),
        mesh.1@ == sphere_indices(sectors as nat, stacks as nat),
        mesh.1.len() == (if stacks <= 1 { 0 } else { 6 * sectors * (stacks - 1) }),
        forall|k: int| 0 <= k < mesh.1.len() ==> mesh.1[k] < mesh.0.len(),
{
    let mut vertices: Vec<SpherePoint> = Vec::new();
    let mut indices: Vec<u32> = Vec::new();
    let row: u64 = sectors as u64 + 1;
    let ghost point = |k: int| sphere_point(sectors as nat, k);

    let mut i: u64 = 0;
    while i <= stacks as u64
        invariant
            i <= stacks + 1,
            row == sectors + 1,
            point == (|k: int| sphere_point(sectors as nat, k)),
            vertices@ == Seq::new((i * row) as nat, point),
        decreases stacks + 1 - i,
    {
        let mut j: u64 = 0;
        while j <= sectors as u64
            invariant
                i <= stacks,
                j <= sectors + 1,
                row == sectors + 1,
                point == (|k: int| sphere_point(sectors as nat, k)),
                vertices@ == Seq::new((i * row + j) as nat, point),
            decreases sectors + 1 - j,
        {
            proof {
                let k = i * row + j;
                assert(k / (row as int) == i && k % (row as int) == j) by (nonlinear_arith)
                    requires
                        k == i * row + j,
                        0 <= j < row,
                        0 <= i,
                ;
                assert(Seq::new((k + 1) as nat, point) =~= Seq::new(k as nat, point).push(
                    SpherePoint { stack: i as u32, sector: j as u32 },
                ));
            }
            vertices.push(SpherePoint { stack: i as u32, sector: j as u32 });
            j += 1;
        }
        proof {
            assert((i + 1) * row == i * row + sectors + 1) by (nonlinear_arith)
                requires
                    row == sectors + 1,
            ;
        }
        i += 1;
    }

    let ghost band = |i: int| sphere_band(sectors as nat, stacks as nat, i);
    proof {
        lemma_concat_cells_step(0, band);
    }
    let mut i: u32 = 0;
    while i < stacks
        invariant
            i <= stacks,
            (stacks + 1) * (sectors + 1) <= 0x1_0000_0000,
            row == sectors + 1,
            vertices.len() == (stacks + 1) * (sectors + 1),
            band == (|i: int| sphere_band(sectors as nat, stacks as nat, i)),
            indices@ == concat_cells(i as nat, band),
            indices.len() == sphere_bands_len(sectors as nat, stacks as nat, i as nat),
            forall|k: int| 0 <= k < indices.len() ==> indices[k] < vertices.len(),
        decreases stacks - i,
    {
        let ghost cell = |j: int| sphere_cell(sectors as nat, stacks as nat, i as int, j);
        let ghost done = indices@;
        proof {
            lemma_concat_cells_step(0, cell);
            lemma_sphere_vertex_numbers(sectors as int, stacks as int, i as int, 0);
        }
        let mut k1: u64 = i as u64 * row;
        let mut k2: u64 = k1 + row;
        let mut j: u32 = 0;
        while j < sectors
            invariant
                i < stacks,
                j <= sectors,
                (stacks + 1) * (sectors + 1) <= 0x1_0000_0000,
                row == sectors + 1,
                vertices.len() == (stacks + 1) * (sectors + 1),
                k1 == i * (sectors + 1) + j,
                k2 == k1 + sectors + 1,
                cell == (|j: int| sphere_cell(sectors as nat, stacks as nat, i as int, j)),
                indices@ == done + concat_cells(j as nat, cell),
                indices.len() == done.len() + j * sphere_cell_len(stacks as nat, i as int),
                forall|k: int| 0 <= k < indices.len() ==> indices[k] < vertices.len(),
            decreases sectors - j,
        {
            proof {
                lemma_sphere_vertex_numbers(sectors as int, stacks as int, i as int, j as int + 1);
                lemma_concat_cells_step(j as nat, cell);
            }
            let ghost before = indices@;
            if i != 0 {
                indices.push(k1 as u32);
                indices.push(k2 as u32);
                indices.push((k1 + 1) as u32);
            }
            if i != stacks - 1 {
                indices.push((k1 + 1) as u32);
                indices.push(k2 as u32);
                indices.push((k2 + 1) as u32);
            }
            proof {
                assert(indices@ =~= before + sphere_cell(
                    sectors as nat,
                    stacks as nat,
                    i as int,
                    j as int,
                ));
                assert(indices@ =~= done + concat_cells((j + 1) as nat, cell));
                assert((j + 1) * sphere_cell_len(stacks as nat, i as int) == j * sphere_cell_len(
                    stacks as nat,
                    i as int,
                ) + sphere_cell_len(stacks as nat, i as int)) by (nonlinear_arith);
            }
            k1 += 1;
            k2 += 1;
            j += 1;
        }
        proof {
            lemma_concat_cells_step(i as nat, band);
            lemma_sphere_band_grows(sectors as nat, stacks as nat, i as nat);
            assert(concat_cells(sectors as nat, cell) == sphere_band(
                sectors as nat,
                stacks as nat,
                i as int,
            ));
        }
        i += 1;
    }
    (vertices, indices)
}

/// Cells of one width add up to as many times that width.
pub proof fn lemma_concat_cells_len<A>(n: nat, cell: spec_fn(int) -> Seq<A>, width: nat)
    requires
        forall|i: int| 0 <= i < n ==> (#[trigger] cell(i)).len() == width,
    ensures
        concat_cells(n, cell).len() == n * width,
    decreases n,
{
    if n == 0 {
        lemma_concat_cells_step(0, cell);
    } else {
        lemma_concat_cells_len((n - 1) as nat, cell, width);
        lemma_concat_cells_step((n - 1) as nat, cell);
        assert(n * width == (n - 1) * width + width) by (nonlinear_arith);
    }
}

/// The indices as bytes, each index least significant byte first.
pub open spec fn little_endian(indices: Seq<u32>) -> Seq<u8> {
    concat_cells(indices.len(), |i: int| spec_u32_to_le_bytes(indices[i]))
}

/// The indices as bytes, each index most significant byte first.
pub open spec fn big_endian(indices: Seq<u32>) -> Seq<u8> {
    concat_cells(indices.len(), |i: int| spec_u32_to_le_bytes(indices[i]).reverse())
}

/// Calls `bytemuck::cast_slice` from `u32` to `u8` and copies what it
/// returns. That function hands back the memory of the slice it is given,
/// seen as bytes: every index in turn, laid out as this machine lays out a
/// `u32`, which is one of the two byte orders. The cast to bytes cannot fail:
/// a byte has no alignment to meet and four bytes make an index.
#[verifier::external_body]
fn cast_indices(indices: &Vec<u32>) -> (bytes: Vec<u8>)
    ensures
        bytes@ == little_endian(indices@) || bytes@ == big_endian(indices@),
{
    bytemuck::cast_slice::<u32, u8>(indices.as_slice()).to_vec()
}

/// The contents of an index buffer: the indices in order, four bytes each,
/// in the byte order of this machine.
pub fn index_bytes(indices: &Vec<u32>) -> (bytes: Vec<u8>)
    ensures
        bytes@ == little_endian(indices@) || bytes@ == big_endian(indices@),
        bytes.len() == 4 * indices.len(),
{
    let bytes = cast_indices(indices);
    proof {
        lemma_auto_spec_u32_to_from_le_bytes();
        lemma_concat_cells_len(
            indices@.len(),
            |i: int| spec_u32_to_le_bytes(indices@[i]),
            4,
        );
        lemma_concat_cells_len(
            indices@.len(),
            |i: int| spec_u32_to_le_bytes(indices@[i]).reverse(),
            4,
        );
    }
    bytes
}

/// The triangles of a cell of the sphere join the four vertices at its
/// corners: those where parallels `i` and `i + 1` cross meridians `j` and
/// `j + 1`.
pub proof fn lemma_sphere_cell_corners(sectors: nat, stacks: nat, i: int, j: int)
    requires
        0 <= i < stacks,
        0 <= j < sectors,
        (stacks + 1) * (sectors + 1) <= 0x1_0000_0000,
    ensures
        ({
            let k1 = i * (sectors + 1) + j;
            let k2 = k1 + sectors + 1;
            &&& sphere_point(sectors, k1) == SpherePoint { stack: i as u32, sector: j as u32 }
            &&& sphere_point(sectors, k1 + 1) == SpherePoint {
                stack: i as u32,
                sector: (j + 1) as u32,
            }
            &&& sphere_point(sectors, k2) == SpherePoint { stack: (i + 1) as u32, sector: j as u32 }
            &&& sphere_point(sectors, k2 + 1) == SpherePoint {
                stack: (i + 1) as u32,
                sector: (j + 1) as u32,
            }
            &&& 0 <= k1 && k2 + 1 < (stacks + 1) * (sectors + 1)
        }),
{
    let row = (sectors + 1) as int;
    let k1 = i * row + j;
    let k2 = k1 + row;
    lemma_sphere_vertex_numbers(sectors as int, stacks as int, i, j + 1);
    assert(k1 / row == i && k1 % row == j && (k1 + 1) / row == i && (k1 + 1) % row == j + 1)
        by (nonlinear_arith)
        requires
            k1 == i * row + j,
            0 <= j < row - 1,
            0 <= i,
    ;
    assert(k2 / row == i + 1 && k2 % row == j && (k2 + 1) / row == i + 1 && (k2 + 1) % row == j
        + 1) by (nonlinear_arith)
        requires
            k2 == (i + 1) * row + j,
            0 <= j < row - 1,
            0 <= i,
    ;
}

/// The two triangles of a ring segment join the inner and outer vertices of
/// spoke `i` and of the spoke after it.
pub proof fn lemma_ring_quad_corners(segments: nat, i: int)
    requires
        0 <= i < segments,
        2 * segments <= 0x1_0000_0000,
    ensures
        ({
            let next = (i + 1) % (segments as int);
            let quad = ring_quad(segments, i);
            &&& 0 <= next < segments
            &&& next == (if i + 1 == segments { 0 } else { i + 1 })
            &&& ring_point(quad[0] as int) == RingPoint { segment: i as u32, outer: false }
            &&& ring_point(quad[1] as int) == RingPoint { segment: next as u32, outer: false }
            &&& ring_point(quad[2] as int) == RingPoint { segment: i as u32, outer: true }
            &&& ring_point(quad[5] as int) == RingPoint { segment: next as u32, outer: true }
            &&& quad[3] == quad[2] && quad[4] == quad[1]
        }),
{
    if i + 1 == segments {
        vstd::arithmetic::div_mod::lemma_mod_self_0(segments as int);
    } else {
        vstd::arithmetic::div_mod::lemma_small_mod((i + 1) as nat, segments);
    }
}

} // verus!
