use planetas::geometry::{
    create_orbit, create_ring, create_sphere, index_bytes, RingPoint, SpherePoint,
};
use planetas::planets::create_planet_system;
use planetas::ship::create_ship;
use planetas::skybox::create_skybox;
use planetas::state::{pack_orbits, OrbitPoint, RendererState};

#[test]
fn orbit_is_a_closed_loop() {
    let (vertices, indices) = create_orbit(4);
    assert_eq!(vertices, vec![0, 1, 2, 3]);
    assert_eq!(indices, vec![0, 1, 1, 2, 2, 3, 3, 0]);
}

#[test]
fn orbit_of_one_vertex_joins_it_to_itself() {
    let (vertices, indices) = create_orbit(1);
    assert_eq!(vertices, vec![0]);
    assert_eq!(indices, vec![0, 0]);
}

#[test]
fn orbit_of_no_vertices_is_empty() {
    let (vertices, indices) = create_orbit(0);
    assert!(vertices.is_empty());
    assert!(indices.is_empty());
}

#[test]
fn orbit_of_a_hundred_vertices() {
    let (vertices, indices) = create_orbit(100);
    assert_eq!(vertices.len(), 100);
    assert_eq!(indices.len(), 200);
    assert_eq!(&indices[196..], &[98, 99, 99, 0]);
    assert!(indices.iter().all(|&i| i < 100));
}

#[test]
fn ring_of_three_spokes() {
    let (vertices, indices) = create_ring(3);
    let expected: Vec<RingPoint> = vec![
        RingPoint { segment: 0, outer: false },
        RingPoint { segment: 0, outer: true },
        RingPoint { segment: 1, outer: false },
        RingPoint { segment: 1, outer: true },
        RingPoint { segment: 2, outer: false },
        RingPoint { segment: 2, outer: true },
    ];
    assert_eq!(vertices, expected);
    assert_eq!(indices, vec![0, 2, 1, 1, 2, 3, 2, 4, 3, 3, 4, 5, 4, 0, 5, 5, 0, 1]);
}

#[test]
fn ring_of_no_spokes_is_empty() {
    let (vertices, indices) = create_ring(0);
    assert!(vertices.is_empty());
    assert!(indices.is_empty());
}

#[test]
fn ring_of_the_scene() {
    let (vertices, indices) = create_ring(64);
    assert_eq!(vertices.len(), 128);
    assert_eq!(indices.len(), 384);
    assert!(indices.iter().all(|&i| (i as usize) < vertices.len()));
    assert_eq!(&indices[378..], &[126, 0, 127, 127, 0, 1]);
}

#[test]
fn sphere_of_two_by_two() {
    let (vertices, indices) = create_sphere(2, 2);
    let lattice: Vec<(u32, u32)> = vertices.iter().map(|v| (v.stack, v.sector)).collect();
    assert_eq!(
        lattice,
        vec![(0, 0), (0, 1), (0, 2), (1, 0), (1, 1), (1, 2), (2, 0), (2, 1), (2, 2)]
    );
    assert_eq!(indices, vec![1, 3, 4, 2, 4, 5, 3, 6, 4, 4, 7, 5]);
}

#[test]
fn sphere_of_three_bands_has_full_cells_in_the_middle() {
    let (vertices, indices) = create_sphere(1, 3);
    assert_eq!(vertices.len(), 8);
    assert_eq!(indices, vec![1, 2, 3, 2, 4, 3, 3, 4, 5, 4, 6, 5]);
}

#[test]
fn sphere_of_one_band_has_no_triangles() {
    let (vertices, indices) = create_sphere(4, 1);
    assert_eq!(vertices.len(), 10);
    assert!(indices.is_empty());
}

#[test]
fn sphere_without_bands_or_sectors() {
    let (vertices, indices) = create_sphere(3, 0);
    assert_eq!(vertices.len(), 4);
    assert!(indices.is_empty());
    let (vertices, indices) = create_sphere(0, 3);
    assert_eq!(vertices.len(), 4);
    assert!(indices.is_empty());
    let (vertices, indices) = create_sphere(0, 0);
    assert_eq!(vertices, vec![SpherePoint { stack: 0, sector: 0 }]);
    assert!(indices.is_empty());
}

#[test]
fn sphere_of_the_scene() {
    let (vertices, indices) = create_sphere(64, 64);
    assert_eq!(vertices.len(), 65 * 65);
    assert_eq!(indices.len(), 6 * 64 * 63);
    assert_eq!(vertices[65], SpherePoint { stack: 1, sector: 0 });
    assert_eq!(vertices[4224], SpherePoint { stack: 64, sector: 64 });
    assert_eq!(*indices.iter().max().unwrap(), 4223);
    assert_eq!(&indices[..6], &[1, 65, 66, 2, 66, 67]);
    assert_eq!(&indices[indices.len() - 3..], &[4158, 4223, 4159]);
}

#[test]
fn skybox_is_a_cube_of_twelve_triangles() {
    let (vertices, indices) = create_skybox();
    assert_eq!(
        vertices,
        vec![
            (-150, -150, 150),
            (150, -150, 150),
            (150, 150, 150),
            (-150, 150, 150),
            (-150, -150, -150),
            (150, -150, -150),
            (150, 150, -150),
            (-150, 150, -150),
        ]
    );
    assert_eq!(
        indices,
        vec![
            0, 1, 2, 0, 2, 3, 5, 4, 7, 5, 7, 6, 4, 0, 3, 4, 3, 7, 1, 5, 6, 1, 6, 2, 3, 2, 6, 3, 6,
            7, 4, 5, 1, 4, 1, 0,
        ]
    );
}

#[test]
fn ship_has_eight_vertices_and_eleven_triangles() {
    let (vertices, indices) = create_ship();
    assert_eq!(
        vertices,
        vec![
            (0, 0, 15),
            (-5, 3, -5),
            (5, 3, -5),
            (0, -3, -5),
            (-12, 0, 0),
            (12, 0, 0),
            (0, 5, 3),
            (0, 6, -8),
        ]
    );
    assert_eq!(
        indices,
        vec![
            0, 1, 6, 0, 6, 2, 0, 3, 1, 0, 2, 3, 1, 3, 6, 2, 6, 3, 1, 2, 3, 0, 4, 1, 0, 2, 5, 6, 7,
            1, 6, 2, 7,
        ]
    );
}

#[test]
fn index_bytes_are_the_indices_in_machine_order() {
    let indices: Vec<u32> = vec![1, 0x0102_0304, u32::MAX, 0];
    let bytes = index_bytes(&indices);
    let mut expected: Vec<u8> = Vec::new();
    for i in &indices {
        expected.extend_from_slice(&i.to_ne_bytes());
    }
    assert_eq!(bytes, expected);
    let little: Vec<u8> = indices.iter().flat_map(|i| i.to_le_bytes()).collect();
    let big: Vec<u8> = indices.iter().flat_map(|i| i.to_be_bytes()).collect();
    assert!(bytes == little || bytes == big);
    assert_eq!(bytes.len(), 16);
    assert!(index_bytes(&Vec::new()).is_empty());
}

#[test]
fn orbits_are_packed_body_after_body() {
    let planets = create_planet_system();
    let (vertices, indices, ranges) = pack_orbits(&planets, 100);
    assert_eq!(ranges, vec![(0, 0), (0, 200), (200, 200), (400, 200), (600, 200), (800, 200)]);
    assert_eq!(vertices.len(), 500);
    assert_eq!(indices.len(), 1000);
    assert_eq!(vertices[0], OrbitPoint { planet: 1, segment: 0 });
    assert_eq!(vertices[199], OrbitPoint { planet: 2, segment: 99 });
    assert_eq!(&indices[198..204], &[99, 0, 100, 101, 101, 102]);
    assert_eq!(&indices[998..], &[499, 400]);
    for (body, &(start, count)) in ranges.iter().enumerate() {
        for &index in &indices[start as usize..(start + count) as usize] {
            assert_eq!(vertices[index as usize].planet, body);
        }
    }
}

#[test]
fn orbits_of_small_loops() {
    let planets = create_planet_system();
    let (vertices, indices, ranges) = pack_orbits(&planets[..3].to_vec(), 3);
    assert_eq!(ranges, vec![(0, 0), (0, 6), (6, 6)]);
    assert_eq!(indices, vec![0, 1, 1, 2, 2, 0, 3, 4, 4, 5, 5, 3]);
    assert_eq!(
        vertices,
        vec![
            OrbitPoint { planet: 1, segment: 0 },
            OrbitPoint { planet: 1, segment: 1 },
            OrbitPoint { planet: 1, segment: 2 },
            OrbitPoint { planet: 2, segment: 0 },
            OrbitPoint { planet: 2, segment: 1 },
            OrbitPoint { planet: 2, segment: 2 },
        ]
    );
}

#[test]
fn orbits_of_no_bodies_or_no_segments() {
    let (vertices, indices, ranges) = pack_orbits(&Vec::new(), 100);
    assert!(vertices.is_empty() && indices.is_empty() && ranges.is_empty());
    let planets = create_planet_system();
    let (vertices, indices, ranges) = pack_orbits(&planets, 0);
    assert!(vertices.is_empty() && indices.is_empty());
    assert_eq!(ranges, vec![(0, 0); 6]);
}

#[test]
fn renderer_state_holds_the_meshes_of_the_scene() {
    let planets = create_planet_system();
    let state = RendererState::new(&planets);
    assert_eq!(state.num_indices, 24_192);
    assert_eq!(state.indices.len(), 24_192);
    assert_eq!(state.vertices.len(), 4_225);
    assert_eq!(state.ship_num_indices, 33);
    assert_eq!(state.ship_vertices.len(), 8);
    assert_eq!(state.skybox_num_indices, 36);
    assert_eq!(state.skybox_vertices.len(), 8);
    assert_eq!(state.ring_num_indices, 384);
    assert_eq!(state.ring_vertices.len(), 128);
    assert_eq!(state.orbit_vertices.len(), 500);
    assert_eq!(state.orbit_indices.len(), 1_000);
    assert_eq!(
        state.orbit_ranges,
        vec![(0, 0), (0, 200), (200, 200), (400, 200), (600, 200), (800, 200)]
    );
    assert_eq!(state.indices, create_sphere(64, 64).1);
    assert_eq!(state.ring_indices, create_ring(64).1);
    assert_eq!(state.ship_indices, create_ship().1);
    assert_eq!(state.skybox_indices, create_skybox().1);
}
