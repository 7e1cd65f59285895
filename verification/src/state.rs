//! The meshes of the scene and the places of the orbit paths in the buffer
//! they share.

use vstd::prelude::*;
use crate::geometry::{
    concat_cells, create_orbit, create_ring, create_sphere, lemma_concat_cells_step,
    orbit_indices, ring_indices, ring_point, sphere_indices, sphere_point, RingPoint,
    SpherePoint,
};
use crate::planets::Planet;
use crate::ship::{create_ship, ship_indices, ship_vertices};
use crate::skybox::{create_skybox, skybox_indices, skybox_vertices};

verus! {

/// A vertex of the buffer that holds every orbit path: the body whose path
/// it lies on, and its turn step along that path.
#[derive(Debug, Clone, Copy, PartialEq, Eq, Structural)]
pub struct OrbitPoint {
    pub planet: usize,
    pub segment: u32,
}

/// For each body, whether it travels on an orbit and so has a path.
pub open spec fn orbiting(planets: Seq<Planet>) -> Seq<bool> {
    planets.map_values(|body: Planet| body.orbit_radius > 0)
}

/// How many of the first `n` bodies have a path.
pub open spec fn orbit_rank(orbiting: Seq<bool>, n: int) -> nat
    decreases n,
{
    if n <= 0 {
        0
    } else {
        orbit_rank(orbiting, n - 1) + if orbiting[n - 1] {
            1nat
        } else {
            0nat
        }
    }
}

/// The vertices of the path of body `i`: none for a body without a path.
pub open spec fn packed_orbit_vertices(orbiting: Seq<bool>, segments: nat, i: int) -> Seq<
    OrbitPoint,
> {
    if orbiting[i] {
        Seq::new(segments, |k: int| OrbitPoint { planet: i as usize, segment: k as u32 })
    } else {
        Seq::empty()
    }
}

/// The line list of the path of body `i`, counting vertices from the start
/// of the shared buffer: the paths before it take `segments` vertices each.
pub open spec fn packed_orbit_indices(orbiting: Seq<bool>, segments: nat, i: int) -> Seq<u32> {
    if orbiting[i] {
        orbit_indices(segments).map_values(
            |index: u32| (index + segments * orbit_rank(orbiting, i)) as u32,
        )
    } else {
        Seq::empty()
    }
}

/// Where the line list of body `i` starts in the shared index buffer, and
/// how many indices it holds. A body without a path has the range `(0, 0)`.
pub open spec fn orbit_range(orbiting: Seq<bool>, segments: nat, i: int) -> (u32, u32) {
    if orbiting[i] {
        ((2 * segments * orbit_rank(orbiting, i)) as u32, (2 * segments) as u32)
    } else {
        (0u32, 0u32)
    }
}

/// The indices of `range` exist, and each names a vertex on the path of
/// `body`.
pub open spec fn range_draws_body(
    vertices: Seq<OrbitPoint>,
    indices: Seq<u32>,
    range: (u32, u32),
    body: int,
) -> bool {
    &&& range.0 + range.1 <= indices.len()
    &&& forall|m: int|
        range.0 <= m < range.0 + range.1 ==> (#[trigger] indices[m]) < vertices.len()
            && vertices[indices[m] as int].planet == body
}

/// The rank never exceeds the number of bodies counted, and grows with it.
pub proof fn lemma_orbit_rank_bounds(orbiting: Seq<bool>, n: int)
    requires
        0 <= n,
    ensures
        orbit_rank(orbiting, n) <= n,
        orbit_rank(orbiting, n) <= orbit_rank(orbiting, n + 1) <= orbit_rank(orbiting, n) + 1,
    decreases n,
{
    if n > 0 {
        lemma_orbit_rank_bounds(orbiting, n - 1);
    }
}

proof fn lemma_range_survives_append(
    vertices: Seq<OrbitPoint>,
    indices: Seq<u32>,
    more_vertices: Seq<OrbitPoint>,
    more_indices: Seq<u32>,
    range: (u32, u32),
    body: int,
)
    requires
        range_draws_body(vertices, indices, range, body),
    ensures
        range_draws_body(vertices + more_vertices, indices + more_indices, range, body),
{
    let v = vertices + more_vertices;
    let x = indices + more_indices;
    assert forall|m: int| range.0 <= m < range.0 + range.1 implies (#[trigger] x[m]) < v.len()
        && v[x[m] as int].planet == body by {
        assert(x[m] == indices[m]);
    }
}

/// Lays the paths of all orbiting bodies out in one vertex buffer and one
/// index buffer, each path a closed loop of `segments` vertices, and notes
/// for every body the range of the index buffer that draws its path.
/// The index buffer must not outgrow the index type.
pub fn pack_orbits(planets: &Vec<Planet>, segments: u32) -> (packed: (
    Vec<OrbitPoint>,
    Vec<u32>,
    Vec<(u32, u32)>,
))
    requires
        2 * segments * orbit_rank(orbiting(planets@), planets.len() as int) <= u32::MAX,
    ensures
        packed.0@ == concat_cells(
            planets.len() as nat,
            |i: int| packed_orbit_vertices(orbiting(planets@), segments as nat, i),
        ),
        packed.1@ == concat_cells(
            planets.len() as nat,
            |i: int| packed_orbit_indices(orbiting(planets@), segments as nat, i),
        ),
        packed.2@ == Seq::new(
            planets.len() as nat,
            |i: int| orbit_range(orbiting(planets@), segments as nat, i),
        ),
        packed.0.len() == segments * orbit_rank(orbiting(planets@), planets.len() as int),
        packed.1.len() == 2 * segments * orbit_rank(orbiting(planets@), planets.len() as int),
        forall|i: int|
            0 <= i < planets.len() ==> range_draws_body(
                packed.0@,
                packed.1@,
                #[trigger] packed.2[i],
                i,
            ),
{
    let ghost flags = orbiting(planets@);
    let ghost vertex_cell = |i: int| packed_orbit_vertices(flags, segments as nat, i);
    let ghost index_cell = |i: int| packed_orbit_indices(flags, segments as nat, i);
    let ghost range_of = |i: int| orbit_range(flags, segments as nat, i);
    let ghost all = orbit_rank(flags, planets.len() as int);
    let mut vertices: Vec<OrbitPoint> = Vec::new();
    let mut indices: Vec<u32> = Vec::new();
    let mut ranges: Vec<(u32, u32)> = Vec::new();
    proof {
        lemma_concat_cells_step(0, vertex_cell);
        lemma_concat_cells_step(0, index_cell);
    }
    let mut i: usize = 0;
    while i < planets.len()
        invariant
            i <= planets.len(),
            flags == orbiting(planets@),
            all == orbit_rank(flags, planets.len() as int),
            2 * segments * all <= u32::MAX,
            orbit_rank(flags, i as int) <= all,
            vertex_cell == (|i: int| packed_orbit_vertices(flags, segments as nat, i)),
            index_cell == (|i: int| packed_orbit_indices(flags, segments as nat, i)),
            range_of == (|i: int| orbit_range(flags, segments as nat, i)),
            vertices@ == concat_cells(i as nat, vertex_cell),
            indices@ == concat_cells(i as nat, index_cell),
            ranges@ == Seq::new(i as nat, range_of),
            vertices.len() == segments * orbit_rank(flags, i as int),
            indices.len() == 2 * segments * orbit_rank(flags, i as int),
            forall|j: int|
                0 <= j < i ==> range_draws_body(vertices@, indices@, #[trigger] ranges[j], j),
        decreases planets.len() - i,
    {
        let ghost rank = orbit_rank(flags, i as int);
        let ghost done_vertices = vertices@;
        let ghost done_indices = indices@;
        let ghost done_ranges = ranges@;
        proof {
            lemma_concat_cells_step(i as nat, vertex_cell);
            lemma_concat_cells_step(i as nat, index_cell);
            lemma_rank_reaches(flags, i as int + 1, planets.len() as int);
            assert(segments * (rank + 1) == segments * rank + segments && 2 * segments * (rank + 1)
                == 2 * segments * rank + 2 * segments && (rank + 1 <= all ==> 2 * segments * (rank
                + 1) <= 2 * segments * all)) by (nonlinear_arith);
        }
        if planets[i].has_orbit() {
            proof {
                assert(flags[i as int]);
                assert(orbit_rank(flags, i + 1) == rank + 1);
                assert(0 <= segments * rank && segments * (rank + 1) <= 2 * segments * (rank + 1))
                    by (nonlinear_arith);
            }
            let (loop_vertices, loop_indices) = create_orbit(segments);
            let base_vertex: u32 = vertices.len() as u32;
            let base_index: u32 = indices.len() as u32;
            let mut k: usize = 0;
            while k < loop_vertices.len()
                invariant
                    k <= loop_vertices.len(),
                    loop_vertices@ == Seq::new(segments as nat, |k: int| k as u32),
                    vertices@ == done_vertices + Seq::new(
                        k as nat,
                        |k: int| OrbitPoint { planet: i, segment: k as u32 },
                    ),
                decreases loop_vertices.len() - k,
            {
                vertices.push(OrbitPoint { planet: i, segment: loop_vertices[k] });
                assert(vertices@ =~= done_vertices + Seq::new(
                    (k + 1) as nat,
                    |k: int| OrbitPoint { planet: i, segment: k as u32 },
                ));
                k += 1;
            }
            let mut k: usize = 0;
            while k < loop_indices.len()
                invariant
                    k <= loop_indices.len(),
                    loop_indices.len() == 2 * segments,
                    base_vertex + segments <= u32::MAX,
                    forall|m: int| 0 <= m < loop_indices.len() ==> loop_indices[m] < segments,
                    indices@ == done_indices + Seq::new(
                        k as nat,
                        |m: int| (loop_indices[m] + base_vertex) as u32,
                    ),
                decreases loop_indices.len() - k,
            {
                indices.push(loop_indices[k] + base_vertex);
                assert(indices@ =~= done_indices + Seq::new(
                    (k + 1) as nat,
                    |m: int| (loop_indices[m] + base_vertex) as u32,
                ));
                k += 1;
            }
            let count: u32 = loop_indices.len() as u32;
            ranges.push((base_index, count));
            proof {
                let added_vertices = packed_orbit_vertices(flags, segments as nat, i as int);
                let added_indices = packed_orbit_indices(flags, segments as nat, i as int);
                assert(vertices@ =~= done_vertices + added_vertices);
                assert(loop_indices@ == orbit_indices(segments as nat));
                assert(added_indices =~= Seq::new(
                    loop_indices.len() as nat,
                    |m: int| (loop_indices[m] + base_vertex) as u32,
                ));
                assert(indices@ =~= done_indices + added_indices);
                assert forall|j: int| 0 <= j < i implies range_draws_body(
                    vertices@,
                    indices@,
                    #[trigger] ranges[j],
                    j,
                ) by {
                    assert(ranges[j] == done_ranges[j]);
                    lemma_range_survives_append(
                        done_vertices,
                        done_indices,
                        added_vertices,
                        added_indices,
                        done_ranges[j],
                        j,
                    );
                }
                assert forall|m: int| base_index <= m < base_index + count implies (
                #[trigger] indices[m]) < vertices.len() && vertices[indices[m] as int].planet
                    == i by {
                    let at = m - base_index;
                    assert(indices[m] == added_indices[at]);
                    assert(added_indices[at] == loop_indices[at] + base_vertex);
                    assert(vertices[indices[m] as int] == added_vertices[loop_indices[at] as int]);
                }
                assert(range_draws_body(vertices@, indices@, ranges[i as int], i as int));
            }
        } else {
            ranges.push((0, 0));
            proof {
                assert(vertices@ =~= done_vertices + packed_orbit_vertices(
                    flags,
                    segments as nat,
                    i as int,
                ));
                assert(indices@ =~= done_indices + packed_orbit_indices(
                    flags,
                    segments as nat,
                    i as int,
                ));
            }
        }
        proof {
            assert(ranges@ =~= Seq::new((i + 1) as nat, range_of));
        }
        i += 1;
    }
    (vertices, indices, ranges)
}

/// Counting further bodies never lowers the rank.
proof fn lemma_rank_reaches(orbiting: Seq<bool>, n: int, end: int)
    requires
        0 <= n <= end,
    ensures
        orbit_rank(orbiting, n) <= orbit_rank(orbiting, end),
    decreases end - n,
{
    if n < end {
        lemma_orbit_rank_bounds(orbiting, n);
        lemma_rank_reaches(orbiting, n + 1, end);
    }
}

/// Meridians of the sphere that every body and moon is drawn with.
pub const SPHERE_SECTORS: u32 = 64;

/// Bands of the sphere that every body and moon is drawn with.
pub const SPHERE_STACKS: u32 = 64;

/// Spokes of the ring mesh.
pub const RING_SEGMENTS: u32 = 64;

/// Vertices of each orbit path.
pub const ORBIT_SEGMENTS: u32 = 100;

/// The meshes of the scene as they go into the vertex and index buffers, the
/// number of indices of each, and for each body the range of the orbit index
/// buffer that draws its path.
pub struct RendererState {
    pub vertices: Vec<SpherePoint>,
    pub indices: Vec<u32>,
    pub num_indices: u32,
    pub ship_vertices: Vec<(i32, i32, i32)>,
    pub ship_indices: Vec<u32>,
    pub ship_num_indices: u32,
    pub skybox_vertices: Vec<(i32, i32, i32)>,
    pub skybox_indices: Vec<u32>,
    pub skybox_num_indices: u32,
    pub ring_vertices: Vec<RingPoint>,
    pub ring_indices: Vec<u32>,
    pub ring_num_indices: u32,
    pub orbit_vertices: Vec<OrbitPoint>,
    pub orbit_indices: Vec<u32>,
    pub orbit_ranges: Vec<(u32, u32)>,
}

impl RendererState {
    /// The meshes are those of the scene, the counts are the lengths of
    /// their index lists, and the orbit buffers hold the paths of the bodies
    /// flagged in `orbiting`, each in the range noted for its body.
    pub open spec fn wf(self, orbiting: Seq<bool>) -> bool {
        &&& self.vertices@ == Seq::new(
            ((SPHERE_STACKS + 1) * (SPHERE_SECTORS + 1)) as nat,
            |k: int| sphere_point(SPHERE_SECTORS as nat, k),
        )
        &&& self.indices@ == sphere_indices(SPHERE_SECTORS as nat, SPHERE_STACKS as nat)
        &&& self.num_indices == self.indices.len() == 6 * SPHERE_SECTORS * (SPHERE_STACKS - 1)
        &&& self.ship_vertices@ == ship_vertices()
        &&& self.ship_indices@ == ship_indices()
        &&& self.ship_num_indices == self.ship_indices.len()
        &&& self.skybox_vertices@ == skybox_vertices()
        &&& self.skybox_indices@ == skybox_indices()
        &&& self.skybox_num_indices == self.skybox_indices.len()
        &&& self.ring_vertices@ == Seq::new(2 * RING_SEGMENTS as nat, |k: int| ring_point(k))
        &&& self.ring_indices@ == ring_indices(RING_SEGMENTS as nat)
        &&& self.ring_num_indices == self.ring_indices.len() == 6 * RING_SEGMENTS
        &&& self.orbit_vertices@ == concat_cells(
            orbiting.len(),
            |i: int| packed_orbit_vertices(orbiting, ORBIT_SEGMENTS as nat, i),
        )
        &&& self.orbit_indices@ == concat_cells(
            orbiting.len(),
            |i: int| packed_orbit_indices(orbiting, ORBIT_SEGMENTS as nat, i),
        )
        &&& self.orbit_ranges@ == Seq::new(
            orbiting.len(),
            |i: int| orbit_range(orbiting, ORBIT_SEGMENTS as nat, i),
        )
        &&& self.orbit_indices.len() <= u32::MAX
        &&& forall|i: int|
            0 <= i < orbiting.len() ==> range_draws_body(
                self.orbit_vertices@,
                self.orbit_indices@,
                #[trigger] self.orbit_ranges[i],
                i,
            )
    }

    /// Builds the meshes of the scene for the given bodies. The orbit index
    /// buffer must not outgrow the index type.
    pub fn new(planets: &Vec<Planet>) -> (state: RendererState)
        requires
            2 * ORBIT_SEGMENTS * orbit_rank(orbiting(planets@), planets.len() as int) <= u32::MAX,
        ensures
            state.wf(orbiting(planets@)),
    {
        let (vertices, indices) = create_sphere(SPHERE_SECTORS, SPHERE_STACKS);
        let (ship_vertices, ship_indices) = create_ship();
        let (skybox_vertices, skybox_indices) = create_skybox();
        let (ring_vertices, ring_indices) = create_ring(RING_SEGMENTS);
        let (orbit_vertices, orbit_indices, orbit_ranges) = pack_orbits(planets, ORBIT_SEGMENTS);
        let num_indices: u32 = indices.len() as u32;
        let ship_num_indices: u32 = ship_indices.len() as u32;
        let skybox_num_indices: u32 = skybox_indices.len() as u32;
        let ring_num_indices: u32 = ring_indices.len() as u32;
        RendererState {
            vertices,
            indices,
            num_indices,
            ship_vertices,
            ship_indices,
            ship_num_indices,
            skybox_vertices,
            skybox_indices,
            skybox_num_indices,
            ring_vertices,
            ring_indices,
            ring_num_indices,
            orbit_vertices,
            orbit_indices,
            orbit_ranges,
        }
    }
}

} // verus!
