//! The bodies of the scene and the camera viewpoints that look at them.

use vstd::prelude::*;

verus! {

/// The visual category of a body. Each category is drawn with a pipeline of
/// its own.
#[derive(Debug, Clone, Copy, PartialEq, Eq, Structural)]
pub enum PlanetType {
    Sun,
    Disco,
    Rave,
    Tropical,
    Neon,
    Carnival,
}

/// How many categories, and so how many body pipelines, there are.
pub const PLANET_TYPE_COUNT: usize = 6;

impl PlanetType {
    /// Position of the category in declaration order.
    pub open spec fn index(self) -> nat {
        match self {
            PlanetType::Sun => 0,
            PlanetType::Disco => 1,
            PlanetType::Rave => 2,
            PlanetType::Tropical => 3,
            PlanetType::Neon => 4,
            PlanetType::Carnival => 5,
        }
    }

    /// The categories in declaration order.
    pub open spec fn ordered() -> Seq<PlanetType> {
        seq![
            PlanetType::Sun,
            PlanetType::Disco,
            PlanetType::Rave,
            PlanetType::Tropical,
            PlanetType::Neon,
            PlanetType::Carnival,
        ]
    }

    /// Slot of this category's pipeline in a table laid out as `all()`.
    pub fn pipeline_index(self) -> (i: usize)
        ensures
            i == self.index(),
            i < PLANET_TYPE_COUNT,
            Self::ordered()[i as int] == self,
    {
        match self {
            PlanetType::Sun => 0,
            PlanetType::Disco => 1,
            PlanetType::Rave => 2,
            PlanetType::Tropical => 3,
            PlanetType::Neon => 4,
            PlanetType::Carnival => 5,
        }
    }

    /// Every category once, in the order in which pipeline tables are laid out.
    pub fn all() -> (types: Vec<PlanetType>)
        ensures
            types@ == Self::ordered(),
            types.len() == PLANET_TYPE_COUNT,
    {
        let mut types: Vec<PlanetType> = Vec::new();
        types.push(PlanetType::Sun);
        types.push(PlanetType::Disco);
        types.push(PlanetType::Rave);
        types.push(PlanetType::Tropical);
        types.push(PlanetType::Neon);
        types.push(PlanetType::Carnival);
        types
    }
}

/// Distinct categories have distinct pipeline slots, and every slot of the
/// table belongs to a category.
pub proof fn lemma_pipeline_slots_are_a_bijection(a: PlanetType, b: PlanetType, slot: nat)
    ensures
        a.index() == b.index() ==> a == b,
        slot < PLANET_TYPE_COUNT ==> PlanetType::ordered()[slot as int].index() == slot,
{
}

/// Radius of the sphere mesh that every body is drawn with, in world units.
pub const BASE_SPHERE_RADIUS: u64 = 2;

/// Distance, in thousandths of a world unit, that the observer keeps from the
/// surface of every body.
pub const SAFETY_MARGIN: u64 = 5_000;

/// Gap, in millionths of a world unit, that is kept between a moon and the
/// exclusion radius of its body.
pub const MOON_GAP: u64 = 50_000;

/// A moon is three tenths the size of its planet: this is that factor in
/// thousandths.
pub const MOON_SCALE: u64 = 300;

/// One body of the scene: its fixed orbital parameters and the pose that the
/// last call of `update` derived from the simulation time.
///
/// Lengths and dimensionless factors are in thousandths, angular speeds in
/// thousandths of a radian per second, angles in picoradians. A thousandth of
/// a radian per second sustained for one nanosecond is one picoradian, so the
/// pose of a body at any nanosecond is an integer.
#[derive(Debug, Clone, Copy, PartialEq, Eq, Structural)]
pub struct Planet {
    pub planet_type: PlanetType,
    pub orbit_radius: u32,
    pub orbit_speed: i32,
    pub rotation_speed: i32,
    pub scale: u32,
    pub orbit_inclination: i32,
    pub initial_angle: i64,
    pub has_rings: bool,
    pub has_moon: bool,
    pub moon_orbit_radius: u32,
    pub moon_orbit_speed: i32,
    pub current_angle: i128,
    pub current_rotation: i128,
    pub moon_angle: i128,
}

impl Planet {
    /// The body as it stands once the simulation clock reads `time`
    /// nanoseconds: the orbital phase starts from the initial angle, the two
    /// other angles from zero, and a body without a moon keeps whatever moon
    /// angle it had.
    pub open spec fn advanced(self, time: u64) -> Planet {
        Planet {
            current_angle: (self.initial_angle + time * self.orbit_speed) as i128,
            current_rotation: (time * self.rotation_speed) as i128,
            moon_angle: if self.has_moon {
                (time * self.moon_orbit_speed) as i128
            } else {
                self.moon_angle
            },
            ..self
        }
    }

    /// Least distance allowed between the observer and the centre of the
    /// body, in thousandths of a world unit.
    pub open spec fn exclusion(self) -> int {
        self.scale * BASE_SPHERE_RADIUS + SAFETY_MARGIN
    }

    /// Radius of the moon of the body, in millionths of a world unit.
    pub open spec fn moon_radius_spec(self) -> int {
        MOON_SCALE * self.scale * BASE_SPHERE_RADIUS
    }

    /// Least distance allowed between the centre of the body and the centre
    /// of its moon, in millionths of a world unit: the exclusion radius of
    /// the body, the radius of the moon, and the gap.
    pub open spec fn moon_clearance_spec(self) -> int {
        1000 * self.exclusion() + self.moon_radius_spec() + MOON_GAP
    }

    /// Sets the pose to the one that belongs to `time` nanoseconds of
    /// simulation. The pose is derived from the absolute time, never from the
    /// previous pose.
    pub fn update(&mut self, time: u64)
        ensures
            *final(self) == old(self).advanced(time),
    {
        let t: i128 = time as i128;
        let orbit_speed: i128 = self.orbit_speed as i128;
        let rotation_speed: i128 = self.rotation_speed as i128;
        let moon_speed: i128 = self.moon_orbit_speed as i128;
        proof {
            lemma_sweep_bounds(t as int, orbit_speed as int);
            lemma_sweep_bounds(t as int, rotation_speed as int);
            lemma_sweep_bounds(t as int, moon_speed as int);
        }
        self.current_angle = self.initial_angle as i128 + t * orbit_speed;
        self.current_rotation = t * rotation_speed;
        if self.has_moon {
            self.moon_angle = t * moon_speed;
        }
    }

    /// Whether the body travels on an orbit. A body with orbit radius zero
    /// rests at the world origin whatever its phase.
    pub fn has_orbit(&self) -> (orbits: bool)
        ensures
            orbits == (self.orbit_radius > 0),
    {
        self.orbit_radius > 0
    }

    /// Least distance allowed between the observer and the centre of the
    /// body, in thousandths of a world unit: the radius of the body at its
    /// scale plus the safety margin.
    pub fn exclusion_radius(&self) -> (radius: u64)
        ensures
            radius == self.exclusion(),
    {
        self.scale as u64 * BASE_SPHERE_RADIUS + SAFETY_MARGIN
    }

    /// Radius of the moon of the body, in millionths of a world unit: the
    /// moon is the sphere of the body at three tenths of its scale.
    pub fn moon_radius(&self) -> (radius: u64)
        ensures
            radius == self.moon_radius_spec(),
    {
        MOON_SCALE * (self.scale as u64) * BASE_SPHERE_RADIUS
    }

    /// Least distance allowed between the centre of the body and the centre
    /// of its moon, in millionths of a world unit. A moon whose orbit would
    /// bring it closer is moved out to this distance.
    pub fn moon_clearance(&self) -> (clearance: u64)
        ensures
            clearance == self.moon_clearance_spec(),
    {
        1000 * self.exclusion_radius() + self.moon_radius() + MOON_GAP
    }
}

/// A tenth of pi in picoradians, rounded to the nearest. The initial angles of
/// the scene are whole multiples of it: a quarter turn is five of them.
pub const TENTH_OF_PI: i64 = 314_159_265_359;

impl Planet {
    /// A body at rest at its initial angle, as it stands before the first
    /// update.
    pub open spec fn at_rest(
        planet_type: PlanetType,
        orbit_radius: u32,
        orbit_speed: i32,
        rotation_speed: i32,
        scale: u32,
        orbit_inclination: i32,
        initial_angle: i64,
        has_rings: bool,
        moon: Option<(u32, i32)>,
    ) -> Planet {
        Planet {
            planet_type,
            orbit_radius,
            orbit_speed,
            rotation_speed,
            scale,
            orbit_inclination,
            initial_angle,
            has_rings,
            has_moon: moon is Some,
            moon_orbit_radius: match moon {
                Some(orbit) => orbit.0,
                None => 0,
            },
            moon_orbit_speed: match moon {
                Some(orbit) => orbit.1,
                None => 0,
            },
            current_angle: initial_angle as i128,
            current_rotation: 0,
            moon_angle: 0,
        }
    }

    /// Makes a body at rest at its initial angle. `moon` holds the orbit
    /// radius and the angular speed of the moon, where the body has one.
    pub fn new(
        planet_type: PlanetType,
        orbit_radius: u32,
        orbit_speed: i32,
        rotation_speed: i32,
        scale: u32,
        orbit_inclination: i32,
        initial_angle: i64,
        has_rings: bool,
        moon: Option<(u32, i32)>,
    ) -> (body: Planet)
        ensures
            body == Planet::at_rest(
                planet_type,
                orbit_radius,
                orbit_speed,
                rotation_speed,
                scale,
                orbit_inclination,
                initial_angle,
                has_rings,
                moon,
            ),
    {
        let (has_moon, moon_orbit_radius, moon_orbit_speed) = match moon {
            Some((radius, speed)) => (true, radius, speed),
            None => (false, 0, 0),
        };
        Planet {
            planet_type,
            orbit_radius,
            orbit_speed,
            rotation_speed,
            scale,
            orbit_inclination,
            initial_angle,
            has_rings,
            has_moon,
            moon_orbit_radius,
            moon_orbit_speed,
            current_angle: initial_angle as i128,
            current_rotation: 0,
            moon_angle: 0,
        }
    }
}

/// The bodies of the scene as configured, before their orbital speeds are
/// slowed down: the sun in the middle and five planets around it.
pub open spec fn configured_system() -> Seq<Planet> {
    seq![
        Planet::at_rest(PlanetType::Sun, 0, 0, 300, 4_000, 0, 0, false, None),
        Planet::at_rest(
            PlanetType::Disco,
            12_000,
            1_800,
            1_500,
            1_200,
            20,
            0,
            false,
            Some((2_500u32, 3_000i32)),
        ),
        Planet::at_rest(
            PlanetType::Rave,
            18_000,
            1_300,
            2_000,
            1_500,
            40,
            (5 * TENTH_OF_PI) as i64,
            true,
            None,
        ),
        Planet::at_rest(
            PlanetType::Tropical,
            26_000,
            900,
            1_200,
            1_800,
            30,
            (10 * TENTH_OF_PI) as i64,
            false,
            None,
        ),
        Planet::at_rest(
            PlanetType::Neon,
            35_000,
            600,
            800,
            2_200,
            50,
            (13 * TENTH_OF_PI) as i64,
            true,
            Some((4_000u32, 2_500i32)),
        ),
        Planet::at_rest(
            PlanetType::Carnival,
            45_000,
            400,
            600,
            2_500,
            60,
            (18 * TENTH_OF_PI) as i64,
            false,
            Some((4_500u32, 2_000i32)),
        ),
    ]
}

/// The same body travelling its orbit at half the speed.
pub open spec fn slowed(body: Planet) -> Planet {
    Planet { orbit_speed: (body.orbit_speed / 2) as i32, ..body }
}

/// The bodies of the scene: those configured, each at half its configured
/// orbital speed.
pub open spec fn planet_system() -> Seq<Planet> {
    configured_system().map_values(|body: Planet| slowed(body))
}

/// Builds the bodies of the scene, in the order in which they are updated,
/// tested for collisions and drawn.
pub fn create_planet_system() -> (planets: Vec<Planet>)
    ensures
        planets@ == planet_system(),
        planets.len() == 6,
{
    let mut planets: Vec<Planet> = Vec::new();
    planets.push(Planet::new(PlanetType::Sun, 0, 0, 300, 4_000, 0, 0, false, None));
    planets.push(
        Planet::new(
            PlanetType::Disco,
            12_000,
            1_800,
            1_500,
            1_200,
            20,
            0,
            false,
            Some((2_500, 3_000)),
        ),
    );
    planets.push(
        Planet::new(
            PlanetType::Rave,
            18_000,
            1_300,
            2_000,
            1_500,
            40,
            5 * TENTH_OF_PI,
            true,
            None,
        ),
    );
    planets.push(
        Planet::new(
            PlanetType::Tropical,
            26_000,
            900,
            1_200,
            1_800,
            30,
            10 * TENTH_OF_PI,
            false,
            None,
        ),
    );
    planets.push(
        Planet::new(
            PlanetType::Neon,
            35_000,
            600,
            800,
            2_200,
            50,
            13 * TENTH_OF_PI,
            true,
            Some((4_000, 2_500)),
        ),
    );
    planets.push(
        Planet::new(
            PlanetType::Carnival,
            45_000,
            400,
            600,
            2_500,
            60,
            18 * TENTH_OF_PI,
            false,
            Some((4_500, 2_000)),
        ),
    );
    assert(planets@ == configured_system());
    let mut i: usize = 0;
    while i < planets.len()
        invariant
            i <= planets.len(),
            planets.len() == configured_system().len(),
            forall|j: int|
                0 <= j < i ==> planets[j] == slowed(#[trigger] configured_system()[j]),
            forall|j: int|
                i <= j < planets.len() ==> planets[j] == #[trigger] configured_system()[j],
        decreases planets.len() - i,
    {
        let body = planets[i];
        planets.set(i, Planet { orbit_speed: body.orbit_speed / 2, ..body });
        i += 1;
    }
    assert(planets@ =~= planet_system());
    planets
}

/// A named camera viewpoint: where the eye stands and what it looks at, both
/// in whole world units.
#[derive(Debug, Clone, Copy, PartialEq, Eq)]
pub struct WarpPoint {
    pub name: &'static str,
    pub position: (i32, i32, i32),
    pub target: (i32, i32, i32),
}

/// The viewpoints of the scene: an overview, the sun, and one per planet,
/// each planet seen from the start of its orbit.
pub open spec fn warp_points() -> Seq<WarpPoint> {
    seq![
        WarpPoint { name: "Vista General", position: (0, 25, 60), target: (0, 0, 0) },
        WarpPoint { name: "Sol de Fiesta", position: (0, 8, 12), target: (0, 0, 0) },
        WarpPoint { name: "Planeta Disco", position: (12, 5, 5), target: (12, 0, 0) },
        WarpPoint { name: "Planeta Rave", position: (18, 8, 8), target: (18, 0, 0) },
        WarpPoint { name: "Planeta Tropical", position: (26, 10, 10), target: (26, 0, 0) },
        WarpPoint { name: "Planeta Neón", position: (35, 12, 12), target: (35, 0, 0) },
        WarpPoint { name: "Planeta Carnaval", position: (45, 15, 15), target: (45, 0, 0) },
    ]
}

/// Builds the viewpoints of the scene, in the order of the keys that select
/// them.
pub fn get_warp_points() -> (points: Vec<WarpPoint>)
    ensures
        points@ == warp_points(),
        points.len() == 7,
{
    let mut points: Vec<WarpPoint> = Vec::new();
    points.push(WarpPoint { name: "Vista General", position: (0, 25, 60), target: (0, 0, 0) });
    points.push(WarpPoint { name: "Sol de Fiesta", position: (0, 8, 12), target: (0, 0, 0) });
    points.push(WarpPoint { name: "Planeta Disco", position: (12, 5, 5), target: (12, 0, 0) });
    points.push(WarpPoint { name: "Planeta Rave", position: (18, 8, 8), target: (18, 0, 0) });
    points.push(WarpPoint { name: "Planeta Tropical", position: (26, 10, 10), target: (26, 0, 0) });
    points.push(WarpPoint { name: "Planeta Neón", position: (35, 12, 12), target: (35, 0, 0) });
    points.push(WarpPoint { name: "Planeta Carnaval", position: (45, 15, 15), target: (45, 0, 0) });
    assert(points@ =~= warp_points());
    points
}

/// No viewpoint of the scene looks at the place where it stands, so each has
/// a direction of view; and each planet's viewpoint looks at the point where
/// that planet's orbit starts.
pub proof fn lemma_warp_points_have_a_direction(i: int)
    requires
        0 <= i < warp_points().len(),
    ensures
        warp_points()[i].position != warp_points()[i].target,
        2 <= i ==> warp_points()[i].target == (
            (configured_system()[i - 1].orbit_radius / 1000) as i32,
            0i32,
            0i32,
        ),
{
}

/// A clock reading times a speed stays far inside the range of an angle.
proof fn lemma_sweep_bounds(time: int, speed: int)
    requires
        0 <= time <= u64::MAX,
        i32::MIN <= speed <= i32::MAX,
    ensures
        -0x8000_0000_0000_0000_0000_0000 <= time * speed <= 0x8000_0000_0000_0000_0000_0000,
{
    assert(-0x8000_0000_0000_0000_0000_0000 <= time * speed <= 0x8000_0000_0000_0000_0000_0000)
        by (nonlinear_arith)
        requires
            0 <= time <= 0xffff_ffff_ffff_ffff,
            -0x8000_0000 <= speed <= 0x7fff_ffff,
    ;
}

/// The pose after `update(t2)` is the same whether or not the body was first
/// updated to some other time `t1`: no error accumulates from frame to frame,
/// and frames may be skipped or replayed.
pub proof fn lemma_update_is_time_absolute(body: Planet, t1: u64, t2: u64)
    ensures
        body.advanced(t1).advanced(t2) == body.advanced(t2),
{
}

} // verus!
