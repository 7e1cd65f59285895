use planetas::planets::{
    create_planet_system, get_warp_points, Planet, PlanetType, PLANET_TYPE_COUNT, TENTH_OF_PI,
};

fn body(orbit_radius: u32, orbit_speed: i32, initial_angle: i64) -> Planet {
    Planet::new(
        PlanetType::Disco,
        orbit_radius,
        orbit_speed,
        1_500,
        1_000,
        0,
        initial_angle,
        false,
        Some((2_500, 3_000)),
    )
}

#[test]
fn pipeline_slots_follow_declaration_order() {
    let all = PlanetType::all();
    assert_eq!(all.len(), PLANET_TYPE_COUNT);
    assert_eq!(
        all,
        vec![
            PlanetType::Sun,
            PlanetType::Disco,
            PlanetType::Rave,
            PlanetType::Tropical,
            PlanetType::Neon,
            PlanetType::Carnival,
        ]
    );
    for (slot, kind) in all.iter().enumerate() {
        assert_eq!(kind.pipeline_index(), slot);
    }
}

#[test]
fn new_body_rests_at_its_initial_angle() {
    let p = body(10_000, 2_000, 7);
    assert_eq!(p.current_angle, 7);
    assert_eq!(p.current_rotation, 0);
    assert_eq!(p.moon_angle, 0);
    assert!(p.has_moon);
    assert_eq!(p.moon_orbit_radius, 2_500);
    assert_eq!(p.moon_orbit_speed, 3_000);
    let lonely = Planet::new(PlanetType::Sun, 0, 0, 300, 4_000, 0, 0, false, None);
    assert!(!lonely.has_moon);
    assert_eq!(lonely.moon_orbit_radius, 0);
    assert_eq!(lonely.moon_orbit_speed, 0);
}

#[test]
fn phase_at_start_and_at_quarter_period() {
    // Radius 10, two radians per second, initial phase nought.
    let mut p = body(10_000, 2_000, 0);
    p.update(0);
    assert_eq!(p.current_angle, 0);
    // A quarter period is pi / 4 seconds; the phase is then pi / 2.
    p.update(785_398_163);
    assert_eq!(p.current_angle, 1_570_796_326_000);
    assert_eq!(p.current_rotation, 785_398_163 * 1_500);
    assert_eq!(p.moon_angle, 785_398_163 * 3_000);
}

#[test]
fn update_is_time_absolute() {
    let t1 = 16_666_667u64;
    let t2 = 5_000_000_123u64;
    for start in create_planet_system() {
        let mut direct = start;
        direct.update(t2);
        let mut stepped = start;
        stepped.update(t1);
        stepped.update(t2);
        assert_eq!(direct, stepped);
        let mut backwards = start;
        backwards.update(t2);
        backwards.update(t1);
        backwards.update(t2);
        assert_eq!(direct, backwards);
    }
}

#[test]
fn update_starts_from_the_initial_angle() {
    let mut p = body(10_000, -450, 5 * TENTH_OF_PI);
    p.update(2_000_000_000);
    assert_eq!(p.current_angle, 5 * TENTH_OF_PI as i128 - 900_000_000_000);
    assert_eq!(p.initial_angle, 5 * TENTH_OF_PI);
}

#[test]
fn update_at_the_largest_time_and_speed() {
    let mut p = Planet::new(
        PlanetType::Neon,
        1,
        i32::MIN,
        i32::MAX,
        1,
        0,
        i64::MIN,
        false,
        Some((1, i32::MIN)),
    );
    p.update(u64::MAX);
    assert_eq!(p.current_angle, i64::MIN as i128 + u64::MAX as i128 * i32::MIN as i128);
    assert_eq!(p.current_rotation, u64::MAX as i128 * i32::MAX as i128);
    assert_eq!(p.moon_angle, u64::MAX as i128 * i32::MIN as i128);
}

#[test]
fn body_without_moon_keeps_its_moon_angle() {
    let mut p = Planet::new(PlanetType::Rave, 18_000, 650, 2_000, 1_500, 40, 0, true, None);
    p.moon_angle = 42;
    p.update(1_000_000_000);
    assert_eq!(p.moon_angle, 42);
    assert_eq!(p.current_rotation, 2_000_000_000_000);
}

#[test]
fn body_at_radius_zero_has_no_orbit() {
    let planets = create_planet_system();
    assert!(!planets[0].has_orbit());
    for p in &planets[1..] {
        assert!(p.has_orbit());
    }
}

#[test]
fn exclusion_radius_of_scale_two_is_nine() {
    let p = Planet::new(PlanetType::Disco, 10_000, 0, 0, 2_000, 0, 0, false, None);
    assert_eq!(p.exclusion_radius(), 9_000);
    let sun = create_planet_system()[0];
    assert_eq!(sun.exclusion_radius(), 13_000);
    let huge = Planet::new(PlanetType::Disco, 0, 0, 0, u32::MAX, 0, 0, false, None);
    assert_eq!(huge.exclusion_radius(), 2 * u32::MAX as u64 + 5_000);
}

#[test]
fn moon_radius_is_three_tenths_of_the_body() {
    let disco = create_planet_system()[1];
    assert_eq!(disco.moon_radius(), 720_000);
    let huge = Planet::new(PlanetType::Disco, 0, 0, 0, u32::MAX, 0, 0, false, None);
    assert_eq!(huge.moon_radius(), 600 * u32::MAX as u64);
}

#[test]
fn moon_clearance_is_exclusion_radius_moon_radius_and_gap() {
    // Scale 1.2: exclusion radius 7.4, moon radius 0.72, gap 0.05.
    let disco = create_planet_system()[1];
    assert_eq!(disco.moon_clearance(), 8_170_000);
    let unit = Planet::new(PlanetType::Disco, 0, 0, 0, 1_000, 0, 0, false, Some((1, 1)));
    assert_eq!(unit.moon_clearance(), 7_650_000);
    let huge = Planet::new(PlanetType::Disco, 0, 0, 0, u32::MAX, 0, 0, false, None);
    assert_eq!(huge.moon_clearance(), 2_600 * u32::MAX as u64 + 5_050_000);
}

#[test]
fn planet_system_is_the_configured_one_at_half_speed() {
    let planets = create_planet_system();
    assert_eq!(planets.len(), 6);
    let kinds: Vec<PlanetType> = planets.iter().map(|p| p.planet_type).collect();
    assert_eq!(kinds, PlanetType::all());
    let radii: Vec<u32> = planets.iter().map(|p| p.orbit_radius).collect();
    assert_eq!(radii, vec![0, 12_000, 18_000, 26_000, 35_000, 45_000]);
    let speeds: Vec<i32> = planets.iter().map(|p| p.orbit_speed).collect();
    assert_eq!(speeds, vec![0, 900, 650, 450, 300, 200]);
    let spins: Vec<i32> = planets.iter().map(|p| p.rotation_speed).collect();
    assert_eq!(spins, vec![300, 1_500, 2_000, 1_200, 800, 600]);
    let scales: Vec<u32> = planets.iter().map(|p| p.scale).collect();
    assert_eq!(scales, vec![4_000, 1_200, 1_500, 1_800, 2_200, 2_500]);
    let tilts: Vec<i32> = planets.iter().map(|p| p.orbit_inclination).collect();
    assert_eq!(tilts, vec![0, 20, 40, 30, 50, 60]);
    let angles: Vec<i64> = planets.iter().map(|p| p.initial_angle).collect();
    assert_eq!(
        angles,
        vec![0, 0, 1_570_796_326_795, 3_141_592_653_590, 4_084_070_449_667, 5_654_866_776_462]
    );
    let rings: Vec<bool> = planets.iter().map(|p| p.has_rings).collect();
    assert_eq!(rings, vec![false, false, true, false, true, false]);
    let moons: Vec<(bool, u32, i32)> =
        planets.iter().map(|p| (p.has_moon, p.moon_orbit_radius, p.moon_orbit_speed)).collect();
    assert_eq!(
        moons,
        vec![
            (false, 0, 0),
            (true, 2_500, 3_000),
            (false, 0, 0),
            (false, 0, 0),
            (true, 4_000, 2_500),
            (true, 4_500, 2_000),
        ]
    );
    for p in &planets {
        assert_eq!(p.current_angle, p.initial_angle as i128);
        assert_eq!(p.current_rotation, 0);
        assert_eq!(p.moon_angle, 0);
    }
}

#[test]
fn warp_points_are_the_seven_of_the_scene() {
    let points = get_warp_points();
    assert_eq!(points.len(), 7);
    assert_eq!(points[0].name, "Vista General");
    assert_eq!(points[0].position, (0, 25, 60));
    assert_eq!(points[0].target, (0, 0, 0));
    assert_eq!(points[1].name, "Sol de Fiesta");
    assert_eq!(points[1].position, (0, 8, 12));
    assert_eq!(points[1].target, (0, 0, 0));
    let names: Vec<&str> = points[2..].iter().map(|p| p.name).collect();
    assert_eq!(
        names,
        vec!["Planeta Disco", "Planeta Rave", "Planeta Tropical", "Planeta Neón", "Planeta Carnaval"]
    );
    let eyes: Vec<(i32, i32, i32)> = points[2..].iter().map(|p| p.position).collect();
    assert_eq!(eyes, vec![(12, 5, 5), (18, 8, 8), (26, 10, 10), (35, 12, 12), (45, 15, 15)]);
    let targets: Vec<(i32, i32, i32)> = points[2..].iter().map(|p| p.target).collect();
    assert_eq!(targets, vec![(12, 0, 0), (18, 0, 0), (26, 0, 0), (35, 0, 0), (45, 0, 0)]);
    for p in &points {
        assert_ne!(p.position, p.target);
    }
}
