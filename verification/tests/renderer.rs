use planetas::input::{Intents, Key, MotionPlan};
use planetas::planets::{create_planet_system, get_warp_points, PlanetType};
use planetas::renderer::{
    draw_frame, BindGroup, Buffers, CameraStep, DrawCall, Pipeline, Renderer,
};
use planetas::state::RendererState;
use planetas::warp::{ease_in_out_cubic, WarpStep, WARP_FULL};

type Pose = [f32; 5];

const HERE: Pose = [0.0, 8.0, 35.0, -1.5707964, -0.2];
const THERE: Pose = [3.0, 3.0, 3.0, 0.0, 0.0];

fn call(
    pipeline: Pipeline,
    buffers: Buffers,
    bind_group: BindGroup,
    first_index: u32,
    end_index: u32,
) -> DrawCall {
    DrawCall { pipeline, buffers, bind_group, first_index, end_index }
}

#[test]
fn new_scene_is_at_rest() {
    let r: Renderer<Pose> = Renderer::new(1280, 720);
    assert_eq!(r.size(), (1280, 720));
    assert_eq!(r.time(), 0);
    assert_eq!(r.planets(), &create_planet_system());
    assert_eq!(r.intents(), Intents::new());
    assert!(!r.navigator().is_warping());
    assert_eq!(r.navigator().warp_progress(), 0);
    assert_eq!(r.navigator().warp_points(), &get_warp_points());
    assert_eq!(r.state().num_indices, 24_192);
}

#[test]
fn resize_takes_a_proper_size() {
    let mut r: Renderer<Pose> = Renderer::new(1280, 720);
    assert!(r.resize(800, 600));
    assert_eq!(r.size(), (800, 600));
    assert!(r.resize(1, u32::MAX));
    assert_eq!(r.size(), (1, u32::MAX));
}

#[test]
fn resize_ignores_a_degenerate_size() {
    let mut r: Renderer<Pose> = Renderer::new(1280, 720);
    assert!(!r.resize(0, 600));
    assert!(!r.resize(800, 0));
    assert!(!r.resize(0, 0));
    assert_eq!(r.size(), (1280, 720));
}

#[test]
fn keys_are_recorded_and_flown() {
    let mut r: Renderer<Pose> = Renderer::new(1280, 720);
    assert!(!r.input(Key::KeyW, true, HERE));
    assert!(!r.input(Key::ArrowRight, true, HERE));
    assert!(r.intents().move_forward && r.intents().rotate_right);
    let tick = r.update(16_000_000);
    assert_eq!(
        tick.camera,
        CameraStep::Fly(MotionPlan {
            dt: 16_000_000,
            forward: 1,
            right: 0,
            up: 0,
            delta_yaw: 32_000_000,
            delta_pitch: 0,
        })
    );
    assert!(!r.input(Key::KeyW, false, HERE));
    assert!(!r.intents().move_forward);
}

#[test]
fn update_moves_the_clock_and_the_bodies() {
    let mut r: Renderer<Pose> = Renderer::new(1280, 720);
    let tick = r.update(1_000_000_000);
    assert_eq!(tick.obstacles, create_planet_system());
    assert_eq!(r.time(), 1_000_000_000);
    let tick = r.update(500_000_000);
    assert_eq!(r.time(), 1_500_000_000);
    let mut at_one_second = create_planet_system();
    for p in &mut at_one_second {
        p.update(1_000_000_000);
    }
    assert_eq!(tick.obstacles, at_one_second);
    let mut expected = create_planet_system();
    for p in &mut expected {
        p.update(1_500_000_000);
    }
    assert_eq!(r.planets(), &expected);
    assert_eq!(r.planets()[1].current_angle, 1_350_000_000_000);
}

#[test]
fn update_of_no_time_changes_nothing_but_derives_the_poses() {
    let mut r: Renderer<Pose> = Renderer::new(1280, 720);
    r.update(0);
    assert_eq!(r.time(), 0);
    assert_eq!(r.planets(), &create_planet_system());
}

#[test]
fn digit_key_starts_a_warp_that_takes_over_the_camera() {
    let mut r: Renderer<Pose> = Renderer::new(1280, 720);
    r.input(Key::KeyW, true, HERE);
    assert!(r.input(Key::Digit3, true, HERE));
    assert!(r.navigator().is_warping());
    assert_eq!(r.navigator().current_warp(), 2);
    assert_eq!(r.navigator().warp_start(), Some(HERE));
    let tick = r.update(100_000_000);
    assert_eq!(
        tick.camera,
        CameraStep::Warp(WarpStep::Blend {
            start: HERE,
            point: get_warp_points()[2],
            eased: ease_in_out_cubic(300_000_000),
        })
    );
    // The held key is still held, and is flown again once the warp is over.
    assert!(r.intents().move_forward);
    let tick = r.update(600_000_000);
    assert_eq!(tick.camera, CameraStep::Warp(WarpStep::Arrive { point: get_warp_points()[2] }));
    assert_eq!(r.navigator().warp_progress(), WARP_FULL);
    let tick = r.update(1_000);
    assert!(matches!(tick.camera, CameraStep::Fly(MotionPlan { forward: 1, .. })));
}

#[test]
fn warp_to_the_first_viewpoint_ends_at_its_stored_eye_position() {
    let mut r: Renderer<Pose> = Renderer::new(1280, 720);
    assert!(r.input(Key::Digit1, true, THERE));
    let mut arrived = None;
    for _ in 0..60 {
        let tick = r.update(16_666_667);
        match tick.camera {
            CameraStep::Warp(WarpStep::Arrive { point }) => {
                arrived = Some(point);
                break;
            }
            CameraStep::Warp(WarpStep::Blend { start, point, .. }) => {
                assert_eq!(start, THERE);
                assert_eq!(point, get_warp_points()[0]);
            }
            CameraStep::Fly(_) => panic!("the camera flew during a warp"),
        }
    }
    let point = arrived.unwrap();
    assert_eq!(point.position, (0, 25, 60));
    assert_eq!(point.target, (0, 0, 0));
    assert_eq!(r.navigator().warp_progress(), WARP_FULL);
    // Forty ticks of a sixtieth of a second make two thirds of a second.
    assert_eq!(r.time(), 40 * 16_666_667);
}

#[test]
fn digit_key_going_up_or_held_during_a_warp_asks_nothing() {
    let mut r: Renderer<Pose> = Renderer::new(1280, 720);
    assert!(!r.input(Key::Digit1, false, HERE));
    assert!(!r.navigator().is_warping());
    assert!(r.input(Key::Digit1, true, HERE));
    r.update(200_000_000);
    assert!(!r.input(Key::Digit5, true, THERE));
    assert_eq!(r.navigator().current_warp(), 0);
    assert_eq!(r.navigator().warp_progress(), 600_000_000);
    assert_eq!(r.navigator().warp_start(), Some(HERE));
}

#[test]
fn held_digit_key_does_not_warp_again_after_arrival() {
    let mut r: Renderer<Pose> = Renderer::new(1280, 720);
    assert!(r.input(Key::Digit2, true, HERE));
    assert!(r.warp_keys().is_held(1));
    r.update(700_000_000);
    assert!(!r.navigator().is_warping());
    // The key is still down: its repeats ask for nothing.
    assert!(!r.input(Key::Digit2, true, THERE));
    assert!(!r.navigator().is_warping());
    assert_eq!(r.navigator().warp_progress(), WARP_FULL);
    // Released and pressed again, it asks anew.
    assert!(!r.input(Key::Digit2, false, THERE));
    assert!(r.input(Key::Digit2, true, THERE));
    assert_eq!(r.navigator().warp_start(), Some(THERE));
    assert_eq!(r.navigator().warp_progress(), 0);
}

#[test]
fn keys_pressed_during_a_warp_are_kept_for_later() {
    let mut r: Renderer<Pose> = Renderer::new(1280, 720);
    r.input(Key::Digit7, true, HERE);
    r.update(1_000_000);
    r.input(Key::Space, true, THERE);
    assert!(r.intents().move_up);
    let tick = r.update(1_000_000);
    assert!(matches!(tick.camera, CameraStep::Warp(WarpStep::Blend { .. })));
}

#[test]
fn frame_of_the_scene_in_order() {
    let r: Renderer<Pose> = Renderer::new(1280, 720);
    let sphere = 24_192;
    let expected = vec![
        call(Pipeline::Skybox, Buffers::Skybox, BindGroup::Skybox, 0, 36),
        call(Pipeline::Orbit, Buffers::Orbit, BindGroup::Orbit(1), 0, 200),
        call(Pipeline::Orbit, Buffers::Orbit, BindGroup::Orbit(2), 200, 400),
        call(Pipeline::Orbit, Buffers::Orbit, BindGroup::Orbit(3), 400, 600),
        call(Pipeline::Orbit, Buffers::Orbit, BindGroup::Orbit(4), 600, 800),
        call(Pipeline::Orbit, Buffers::Orbit, BindGroup::Orbit(5), 800, 1000),
        call(Pipeline::Planet(PlanetType::Sun), Buffers::Sphere, BindGroup::Planet(0), 0, sphere),
        call(Pipeline::Planet(PlanetType::Disco), Buffers::Sphere, BindGroup::Planet(1), 0, sphere),
        call(Pipeline::Moon, Buffers::Sphere, BindGroup::Moon(1), 0, sphere),
        call(Pipeline::Planet(PlanetType::Rave), Buffers::Sphere, BindGroup::Planet(2), 0, sphere),
        call(Pipeline::Ring, Buffers::Ring, BindGroup::Ring(2), 0, 384),
        call(Pipeline::Planet(PlanetType::Tropical), Buffers::Sphere, BindGroup::Planet(3), 0, sphere),
        call(Pipeline::Planet(PlanetType::Neon), Buffers::Sphere, BindGroup::Planet(4), 0, sphere),
        call(Pipeline::Moon, Buffers::Sphere, BindGroup::Moon(4), 0, sphere),
        call(Pipeline::Ring, Buffers::Ring, BindGroup::Ring(4), 0, 384),
        call(Pipeline::Planet(PlanetType::Carnival), Buffers::Sphere, BindGroup::Planet(5), 0, sphere),
        call(Pipeline::Moon, Buffers::Sphere, BindGroup::Moon(5), 0, sphere),
        call(Pipeline::Ship, Buffers::Ship, BindGroup::Ship, 0, 33),
    ];
    assert_eq!(r.render(), expected);
}

#[test]
fn frame_does_not_depend_on_the_time() {
    let mut r: Renderer<Pose> = Renderer::new(1280, 720);
    let before = r.render();
    r.input(Key::Digit2, true, HERE);
    r.update(123_456_789);
    r.resize(640, 480);
    assert_eq!(r.render(), before);
}

#[test]
fn frame_without_bodies_is_shell_and_craft() {
    let planets = Vec::new();
    let state = RendererState::new(&planets);
    assert_eq!(
        draw_frame(&planets, &state),
        vec![
            call(Pipeline::Skybox, Buffers::Skybox, BindGroup::Skybox, 0, 36),
            call(Pipeline::Ship, Buffers::Ship, BindGroup::Ship, 0, 33),
        ]
    );
}

#[test]
fn frame_of_a_single_ringed_body_at_rest() {
    let mut planets = create_planet_system();
    planets.truncate(1);
    planets[0].has_rings = true;
    planets[0].has_moon = true;
    let state = RendererState::new(&planets);
    assert_eq!(state.orbit_ranges, vec![(0, 0)]);
    assert_eq!(
        draw_frame(&planets, &state),
        vec![
            call(Pipeline::Skybox, Buffers::Skybox, BindGroup::Skybox, 0, 36),
            call(Pipeline::Planet(PlanetType::Sun), Buffers::Sphere, BindGroup::Planet(0), 0, 24_192),
            call(Pipeline::Moon, Buffers::Sphere, BindGroup::Moon(0), 0, 24_192),
            call(Pipeline::Ring, Buffers::Ring, BindGroup::Ring(0), 0, 384),
            call(Pipeline::Ship, Buffers::Ship, BindGroup::Ship, 0, 33),
        ]
    );
}
