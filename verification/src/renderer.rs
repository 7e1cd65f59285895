//! The scene coordinator: it owns the simulation clock, the bodies, the
//! held keys and the warp navigator, advances them tick by tick in a fixed
//! order, and lays out the draw calls of each frame.

use vstd::prelude::*;
use crate::geometry::{concat_cells, lemma_concat_cells_step};
use crate::input::{held_after, warp_request, Intents, Key, MotionPlan, WarpKeys, WARP_KEY_COUNT};
use crate::planets::{
    create_planet_system, get_warp_points, planet_system, warp_points, Planet, PlanetType,
};
use crate::state::{lemma_orbit_rank_bounds, orbiting, RendererState};
use crate::warp::{warp_step, WarpNavigator, WarpState, WarpStep};

verus! {

/// The pipeline that a draw call runs.
#[derive(Debug, Clone, Copy, PartialEq, Eq, Structural)]
pub enum Pipeline {
    Skybox,
    Orbit,
    Planet(PlanetType),
    Moon,
    Ring,
    Ship,
}

/// The vertex buffer and index buffer that a draw call reads.
#[derive(Debug, Clone, Copy, PartialEq, Eq, Structural)]
pub enum Buffers {
    Skybox,
    Orbit,
    Sphere,
    Ring,
    Ship,
}

/// The uniforms that a draw call is bound to. The path of a body is drawn
/// with the uniforms of the body itself, so that the two stay locked.
#[derive(Debug, Clone, Copy, PartialEq, Eq, Structural)]
pub enum BindGroup {
    Skybox,
    Orbit(usize),
    Planet(usize),
    Moon(usize),
    Ring(usize),
    Ship,
}

/// One indexed draw: what to draw with, and the indices from `first_index`
/// up to `end_index`.
#[derive(Debug, Clone, Copy, PartialEq, Eq, Structural)]
pub struct DrawCall {
    pub pipeline: Pipeline,
    pub buffers: Buffers,
    pub bind_group: BindGroup,
    pub first_index: u32,
    pub end_index: u32,
}

/// The draw of the background shell.
pub open spec fn skybox_draw(state: RendererState) -> DrawCall {
    DrawCall {
        pipeline: Pipeline::Skybox,
        buffers: Buffers::Skybox,
        bind_group: BindGroup::Skybox,
        first_index: 0,
        end_index: state.skybox_num_indices,
    }
}

/// The draw of the observer's craft.
pub open spec fn ship_draw(state: RendererState) -> DrawCall {
    DrawCall {
        pipeline: Pipeline::Ship,
        buffers: Buffers::Ship,
        bind_group: BindGroup::Ship,
        first_index: 0,
        end_index: state.ship_num_indices,
    }
}

/// The draw of the path of body `i`: none for a body at rest, nor for an
/// empty path.
pub open spec fn orbit_draws(planets: Seq<Planet>, state: RendererState, i: int) -> Seq<DrawCall> {
    let range = state.orbit_ranges[i];
    if planets[i].orbit_radius > 0 && range.1 > 0 {
        seq![
            DrawCall {
                pipeline: Pipeline::Orbit,
                buffers: Buffers::Orbit,
                bind_group: BindGroup::Orbit(i as usize),
                first_index: range.0,
                end_index: (range.0 + range.1) as u32,
            },
        ]
    } else {
        Seq::empty()
    }
}

/// The draws of body `i`: the body itself with the pipeline of its kind,
/// then its moon if it has one, then its rings if it has them.
pub open spec fn body_draws(planets: Seq<Planet>, state: RendererState, i: int) -> Seq<DrawCall> {
    let body = seq![
        DrawCall {
            pipeline: Pipeline::Planet(planets[i].planet_type),
            buffers: Buffers::Sphere,
            bind_group: BindGroup::Planet(i as usize),
            first_index: 0,
            end_index: state.num_indices,
        },
    ];
    let moon = if planets[i].has_moon {
        seq![
            DrawCall {
                pipeline: Pipeline::Moon,
                buffers: Buffers::Sphere,
                bind_group: BindGroup::Moon(i as usize),
                first_index: 0,
                end_index: state.num_indices,
            },
        ]
    } else {
        Seq::empty()
    };
    let rings = if planets[i].has_rings {
        seq![
            DrawCall {
                pipeline: Pipeline::Ring,
                buffers: Buffers::Ring,
                bind_group: BindGroup::Ring(i as usize),
                first_index: 0,
                end_index: state.ring_num_indices,
            },
        ]
    } else {
        Seq::empty()
    };
    body + moon + rings
}

/// The draw calls of one frame, in order: the background shell, the orbit
/// paths, the bodies each with its moon and rings, the observer's craft.
pub open spec fn frame(planets: Seq<Planet>, state: RendererState) -> Seq<DrawCall> {
    seq![skybox_draw(state)] + concat_cells(
        planets.len(),
        |i: int| orbit_draws(planets, state, i),
    ) + concat_cells(planets.len(), |i: int| body_draws(planets, state, i)) + seq![
        ship_draw(state),
    ]
}

/// How many indices the index buffer of `buffers` holds.
pub open spec fn index_count(state: RendererState, buffers: Buffers) -> nat {
    match buffers {
        Buffers::Skybox => state.skybox_indices.len() as nat,
        Buffers::Orbit => state.orbit_indices.len() as nat,
        Buffers::Sphere => state.indices.len() as nat,
        Buffers::Ring => state.ring_indices.len() as nat,
        Buffers::Ship => state.ship_indices.len() as nat,
    }
}

/// The draw call reads only indices that its index buffer holds.
pub open spec fn in_bounds(call: DrawCall, state: RendererState) -> bool {
    call.first_index <= call.end_index <= index_count(state, call.buffers)
}

/// Lays out the draw calls of one frame for the given bodies and meshes.
pub fn draw_frame(planets: &Vec<Planet>, state: &RendererState) -> (calls: Vec<DrawCall>)
    requires
        state.wf(orbiting(planets@)),
    ensures
        calls@ == frame(planets@, *state),
        forall|k: int| 0 <= k < calls.len() ==> in_bounds(#[trigger] calls[k], *state),
{
    let ghost orbit_cell = |i: int| orbit_draws(planets@, *state, i);
    let ghost body_cell = |i: int| body_draws(planets@, *state, i);
    let mut calls: Vec<DrawCall> = Vec::new();
    calls.push(
        DrawCall {
            pipeline: Pipeline::Skybox,
            buffers: Buffers::Skybox,
            bind_group: BindGroup::Skybox,
            first_index: 0,
            end_index: state.skybox_num_indices,
        },
    );
    proof {
        lemma_concat_cells_step(0, orbit_cell);
        lemma_concat_cells_step(0, body_cell);
    }
    let mut i: usize = 0;
    while i < planets.len()
        invariant
            i <= planets.len(),
            state.wf(orbiting(planets@)),
            orbit_cell == (|i: int| orbit_draws(planets@, *state, i)),
            calls@ == seq![skybox_draw(*state)] + concat_cells(i as nat, orbit_cell),
            forall|k: int| 0 <= k < calls.len() ==> in_bounds(#[trigger] calls[k], *state),
        decreases planets.len() - i,
    {
        proof {
            lemma_concat_cells_step(i as nat, orbit_cell);
            assert(orbiting(planets@).len() == planets.len());
        }
        if planets[i].has_orbit() {
            let (start, count) = state.orbit_ranges[i];
            if count > 0 {
                calls.push(
                    DrawCall {
                        pipeline: Pipeline::Orbit,
                        buffers: Buffers::Orbit,
                        bind_group: BindGroup::Orbit(i),
                        first_index: start,
                        end_index: start + count,
                    },
                );
            }
        }
        assert(calls@ =~= seq![skybox_draw(*state)] + concat_cells((i + 1) as nat, orbit_cell));
        i += 1;
    }
    let ghost paths = calls@;
    let mut i: usize = 0;
    while i < planets.len()
        invariant
            i <= planets.len(),
            state.wf(orbiting(planets@)),
            body_cell == (|i: int| body_draws(planets@, *state, i)),
            calls@ == paths + concat_cells(i as nat, body_cell),
            forall|k: int| 0 <= k < calls.len() ==> in_bounds(#[trigger] calls[k], *state),
        decreases planets.len() - i,
    {
        proof {
            lemma_concat_cells_step(i as nat, body_cell);
        }
        let planet = planets[i];
        calls.push(
            DrawCall {
                pipeline: Pipeline::Planet(planet.planet_type),
                buffers: Buffers::Sphere,
                bind_group: BindGroup::Planet(i),
                first_index: 0,
                end_index: state.num_indices,
            },
        );
        if planet.has_moon {
            calls.push(
                DrawCall {
                    pipeline: Pipeline::Moon,
                    buffers: Buffers::Sphere,
                    bind_group: BindGroup::Moon(i),
                    first_index: 0,
                    end_index: state.num_indices,
                },
            );
        }
        if planet.has_rings {
            calls.push(
                DrawCall {
                    pipeline: Pipeline::Ring,
                    buffers: Buffers::Ring,
                    bind_group: BindGroup::Ring(i),
                    first_index: 0,
                    end_index: state.ring_num_indices,
                },
            );
        }
        assert(calls@ =~= paths + concat_cells((i + 1) as nat, body_cell));
        i += 1;
    }
    calls.push(
        DrawCall {
            pipeline: Pipeline::Ship,
            buffers: Buffers::Ship,
            bind_group: BindGroup::Ship,
            first_index: 0,
            end_index: state.ship_num_indices,
        },
    );
    assert(calls@ =~= frame(planets@, *state));
    calls
}

/// What the scene coordinator holds, as plain values.
pub struct Scene<S> {
    pub size: (u32, u32),
    pub time: u64,
    pub planets: Seq<Planet>,
    pub warp: WarpState<S>,
    pub intents: Intents,
    pub warp_keys: Seq<bool>,
}

/// What the camera is to do on one tick: fly as the held keys ask, or stand
/// where the transition under way puts it.
#[derive(Debug, PartialEq)]
pub enum CameraStep<S> {
    Fly(MotionPlan),
    Warp(WarpStep<S>),
}

/// The outcome of one tick: what the camera is to do, and the bodies as they
/// stood when the tick began. The camera is moved first and then kept out of
/// those bodies, one after the other in their order; only then do the bodies
/// move on.
#[derive(Debug)]
pub struct Tick<S> {
    pub camera: CameraStep<S>,
    pub obstacles: Vec<Planet>,
}

impl<S> Scene<S> {
    /// The scene in a surface of the given size. A size with a zero in it is
    /// ignored.
    pub open spec fn resized(self, width: u32, height: u32) -> Scene<S> {
        if width > 0 && height > 0 {
            Scene { size: (width, height), ..self }
        } else {
            self
        }
    }

    /// The scene after `key` went down (`pressed`) or up while the camera
    /// was at `pose`: the key's intent is recorded whatever the navigator
    /// does, and a viewpoint key going down asks for its viewpoint, once.
    pub open spec fn with_input(self, key: Key, pressed: bool, pose: S) -> Scene<S> {
        Scene {
            intents: self.intents.with_key(key, pressed),
            warp_keys: held_after(key, pressed, self.warp_keys),
            warp: match warp_request(key, pressed, self.warp_keys) {
                Some(index) => self.warp.requested(index as nat, pose),
                None => self.warp,
            },
            ..self
        }
    }

    /// The scene `dt` nanoseconds later: the clock has moved on, so has the
    /// transition under way if there is one, and every body has the pose
    /// that belongs to the new time.
    pub open spec fn ticked(self, dt: u64) -> Scene<S> {
        let time = (self.time + dt) as u64;
        Scene {
            time,
            warp: self.warp.ticked(dt as nat),
            planets: self.planets.map_values(|body: Planet| body.advanced(time)),
            ..self
        }
    }

    /// What the camera is to do on a tick of `dt` nanoseconds. While a
    /// transition is under way the held keys are ignored.
    pub open spec fn camera_step(self, dt: u64) -> CameraStep<S> {
        if self.warp.warping {
            CameraStep::Warp(warp_step(self.warp, dt as nat)->0)
        } else {
            CameraStep::Fly(self.intents.motion_spec(dt))
        }
    }
}

/// The scene coordinator.
pub struct Renderer<S> {
    state: RendererState,
    size: (u32, u32),
    time: u64,
    planets: Vec<Planet>,
    navigator: WarpNavigator<S>,
    intents: Intents,
    warp_keys: WarpKeys,
}

impl<S> View for Renderer<S> {
    type V = Scene<S>;

    closed spec fn view(&self) -> Scene<S> {
        Scene {
            size: self.size,
            time: self.time,
            planets: self.planets@,
            warp: self.navigator@,
            intents: self.intents,
            warp_keys: self.warp_keys@,
        }
    }
}

impl<S: Copy> Renderer<S> {
    /// The meshes that the draw calls refer to.
    pub closed spec fn meshes(&self) -> RendererState {
        self.state
    }

    /// The meshes are those of the bodies held, the navigator is sound, and
    /// there is one flag for each viewpoint key.
    pub open spec fn wf(&self) -> bool {
        &&& self.meshes().wf(orbiting(self@.planets))
        &&& self@.warp.wf()
        &&& self@.warp_keys.len() == WARP_KEY_COUNT
    }

    /// The scene as it starts: the clock at nought, the bodies at rest, no
    /// key held, the navigator at rest over the viewpoints of the scene.
    pub fn new(width: u32, height: u32) -> (renderer: Self)
        ensures
            renderer.wf(),
            renderer@ == (Scene::<S> {
                size: (width, height),
                time: 0,
                planets: planet_system(),
                warp: WarpState {
                    points: warp_points(),
                    target: 0,
                    progress: 0,
                    warping: false,
                    start: None,
                },
                intents: Intents::none(),
                warp_keys: Seq::new(WARP_KEY_COUNT as nat, |i: int| false),
            }),
    {
        let planets = create_planet_system();
        proof {
            lemma_orbit_rank_bounds(orbiting(planets@), planets.len() as int);
        }
        let state = RendererState::new(&planets);
        Renderer {
            state,
            size: (width, height),
            time: 0,
            planets,
            navigator: WarpNavigator::new(get_warp_points()),
            intents: Intents::new(),
            warp_keys: WarpKeys::new(),
        }
    }

    /// Width and height of the surface, in pixels.
    pub fn size(&self) -> (size: (u32, u32))
        ensures
            size == self@.size,
    {
        self.size
    }

    /// The simulation clock, in nanoseconds.
    pub fn time(&self) -> (time: u64)
        ensures
            time == self@.time,
    {
        self.time
    }

    /// The bodies, each at the pose of the last tick.
    pub fn planets(&self) -> (planets: &Vec<Planet>)
        ensures
            planets@ == self@.planets,
    {
        &self.planets
    }

    /// The held keys.
    pub fn intents(&self) -> (intents: Intents)
        ensures
            intents == self@.intents,
    {
        self.intents
    }

    /// The warp navigator.
    pub fn navigator(&self) -> (navigator: &WarpNavigator<S>)
        ensures
            navigator@ == self@.warp,
    {
        &self.navigator
    }

    /// The meshes of the scene and the ranges of its orbit paths.
    pub fn state(&self) -> (state: &RendererState)
        ensures
            *state == self.meshes(),
    {
        &self.state
    }

    /// Takes a new surface size. A size with a zero in it is ignored and the
    /// size before stays. Returns whether the size was taken.
    pub fn resize(&mut self, width: u32, height: u32) -> (taken: bool)
        requires
            old(self).wf(),
        ensures
            final(self).wf(),
            taken == (width > 0 && height > 0),
            final(self)@ == old(self)@.resized(width, height),
            final(self).meshes() == old(self).meshes(),
    {
        if width > 0 && height > 0 {
            self.size = (width, height);
            true
        } else {
            false
        }
    }

    /// Takes a key going down (`pressed`) or up while the camera is at
    /// `pose`. Returns whether a transition began.
    pub fn input(&mut self, key: Key, pressed: bool, pose: S) -> (began: bool)
        requires
            old(self).wf(),
        ensures
            final(self).wf(),
            final(self)@ == old(self)@.with_input(key, pressed, pose),
            final(self).meshes() == old(self).meshes(),
            began == (warp_request(key, pressed, old(self)@.warp_keys) matches Some(index)
                && old(self)@.warp.accepts(index as nat)),
    {
        self.intents.input(key, pressed);
        match self.warp_keys.input(key, pressed) {
            Some(index) => self.navigator.initiate_warp(index, pose),
            None => false,
        }
    }

    /// Which of the viewpoint keys are down.
    pub fn warp_keys(&self) -> (keys: &WarpKeys)
        ensures
            keys@ == self@.warp_keys,
    {
        &self.warp_keys
    }

    /// Advances the scene by `dt` nanoseconds: the clock first, then the
    /// transition under way or else the held keys, then the bodies. The
    /// clock must not run over.
    pub fn update(&mut self, dt: u64) -> (tick: Tick<S>)
        requires
            old(self).wf(),
            old(self)@.time + dt <= u64::MAX,
        ensures
            final(self).wf(),
            final(self)@ == old(self)@.ticked(dt),
            final(self).meshes() == old(self).meshes(),
            tick.camera == old(self)@.camera_step(dt),
            tick.obstacles@ == old(self)@.planets,
    {
        self.time = self.time + dt;
        let camera = match self.navigator.update_warp(dt) {
            Some(step) => CameraStep::Warp(step),
            None => CameraStep::Fly(self.intents.update_camera(dt)),
        };
        let ghost before = self.planets@;
        let time = self.time;
        let mut obstacles: Vec<Planet> = Vec::new();
        let mut i: usize = 0;
        while i < self.planets.len()
            invariant
                i <= self.planets.len(),
                self.planets.len() == before.len(),
                obstacles@ == before.subrange(0, i as int),
                forall|j: int|
                    0 <= j < i ==> self.planets[j] == (#[trigger] before[j]).advanced(time),
                forall|j: int| i <= j < before.len() ==> self.planets[j] == before[j],
                self.state == old(self).state,
                self.navigator@ == old(self).navigator@.ticked(dt as nat),
                self.time == time,
                self.size == old(self).size,
                self.intents == old(self).intents,
                self.warp_keys == old(self).warp_keys,
            decreases self.planets.len() - i,
        {
            let mut planet = self.planets[i];
            obstacles.push(planet);
            planet.update(time);
            self.planets.set(i, planet);
            assert(obstacles@ =~= before.subrange(0, i + 1));
            i += 1;
        }
        proof {
            assert(obstacles@ =~= before);
            assert(self.planets@ =~= before.map_values(|body: Planet| body.advanced(time)));
            assert(orbiting(self.planets@) =~= orbiting(before));
        }
        Tick { camera, obstacles }
    }

    /// The draw calls of the frame, in order.
    pub fn render(&self) -> (calls: Vec<DrawCall>)
        requires
            self.wf(),
        ensures
            calls@ == frame(self@.planets, self.meshes()),
            forall|k: int| 0 <= k < calls.len() ==> in_bounds(#[trigger] calls[k], self.meshes()),
    {
        draw_frame(&self.planets, &self.state)
    }
}

/// A tick changes the pose of the bodies and nothing else about them: there
/// are as many as before, and each keeps its kind, its orbit, its scale, its
/// moon and its rings.
pub proof fn lemma_tick_keeps_structure<S>(scene: Scene<S>, dt: u64, i: int)
    requires
        0 <= i < scene.planets.len(),
    ensures
        scene.ticked(dt).planets.len() == scene.planets.len(),
        scene.ticked(dt).planets[i] == (Planet {
            current_angle: scene.ticked(dt).planets[i].current_angle,
            current_rotation: scene.ticked(dt).planets[i].current_rotation,
            moon_angle: scene.ticked(dt).planets[i].moon_angle,
            ..scene.planets[i]
        }),
        scene.ticked(dt).size == scene.size,
        scene.ticked(dt).intents == scene.intents,
        scene.ticked(dt).warp_keys == scene.warp_keys,
{
}

/// The draw calls of a frame depend on what the bodies are, not on where
/// they are: a tick leaves them as they were, and the meshes stay fit for
/// the bodies.
pub proof fn lemma_frame_ignores_the_clock<S>(scene: Scene<S>, state: RendererState, dt: u64)
    ensures
        orbiting(scene.ticked(dt).planets) == orbiting(scene.planets),
        frame(scene.ticked(dt).planets, state) == frame(scene.planets, state),
{
    let before = scene.planets;
    let after = scene.ticked(dt).planets;
    assert(orbiting(after) =~= orbiting(before));
    assert(Seq::new(after.len(), |i: int| orbit_draws(after, state, i)) =~= Seq::new(
        before.len(),
        |i: int| orbit_draws(before, state, i),
    ));
    assert(Seq::new(after.len(), |i: int| body_draws(after, state, i)) =~= Seq::new(
        before.len(),
        |i: int| body_draws(before, state, i),
    ));
}

/// A frame begins with the background shell and ends with the observer's
/// craft.
pub proof fn lemma_frame_ends(planets: Seq<Planet>, state: RendererState)
    ensures
        frame(planets, state).len() >= 2,
        frame(planets, state).first() == skybox_draw(state),
        frame(planets, state).last() == ship_draw(state),
{
}

} // verus!
