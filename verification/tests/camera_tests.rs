//! Camera free-fly, warp state machine, frustum culling and input
//! application on concrete values.

use orbital_renderer::body::{
    check_collision, handle_input, trail_color, warp_to_planet, CelestialBody, InputState, Trail,
    BANK_ANGLE, TURN_SPEED,
};
use orbital_renderer::camera::Camera;
use orbital_renderer::frustum::Frustum;
use orbital_renderer::fx::{FX_HALF_PI, FX_ONE};
use orbital_renderer::planet_type::PlanetType;
use orbital_renderer::vec3::Vec3;

fn test_camera() -> Camera {
    Camera::new(
        Vec3::new(0, 0, 5 * FX_ONE),
        Vec3::new(0, 0, 0),
        Vec3::new(0, FX_ONE, 0),
    )
}

fn body_at(x: i64, z: i64, scale: i64, tag: PlanetType) -> CelestialBody {
    CelestialBody {
        position: Vec3::new(x, 0, z),
        scale,
        rotation: Vec3::new(0, 0, 0),
        shader_type: tag,
        orbital_distance: 0,
        orbital_speed: 0,
        trail: Trail::new(8),
    }
}

#[test]
fn warp_completion_is_exact_after_one_full_step() {
    let mut camera = test_camera();
    camera.start_warp(Vec3::new(10 * FX_ONE, 0, 0), Vec3::new(FX_ONE, 0, 0));
    assert!(camera.warp_state.is_active);
    camera.update_warp(FX_ONE);
    assert_eq!(camera.eye, Vec3::new(10 * FX_ONE, 0, 0));
    assert!(!camera.warp_state.is_active);
    assert_eq!(camera.roll, 0);
}

#[test]
fn warp_completion_is_exact_after_accumulated_steps() {
    let mut camera = test_camera();
    let target = Vec3::new(-3 * FX_ONE, 2 * FX_ONE, 7 * FX_ONE);
    camera.start_warp(target, Vec3::new(0, 0, -FX_ONE));
    let step = 6 * FX_ONE / 10;
    camera.update_warp(step);
    assert!(camera.warp_state.is_active);
    assert_ne!(camera.eye, target);
    camera.update_warp(step);
    assert_eq!(camera.eye, target);
    assert!(!camera.warp_state.is_active);
}

#[test]
fn inactive_warp_update_changes_nothing() {
    let mut camera = test_camera();
    let before = camera;
    camera.update_warp(FX_ONE);
    assert_eq!(camera, before);
}

#[test]
fn mid_warp_pose_interpolates_between_start_and_end() {
    let mut camera = test_camera();
    camera.start_warp(Vec3::new(10 * FX_ONE, 0, 5 * FX_ONE), Vec3::new(FX_ONE, 0, 0));
    camera.update_warp(FX_ONE / 2);
    assert!(camera.warp_state.is_active);
    assert!(camera.eye.x > 0 && camera.eye.x < 10 * FX_ONE);
    assert_eq!(camera.eye.z, 5 * FX_ONE);
}

#[test]
fn pitch_clamps_inside_pole_margins() {
    let mut camera = test_camera();
    for _ in 0..200 {
        camera.rotate_pitch(6554);
    }
    assert_eq!(camera.pitch, FX_HALF_PI - 6554);
    for _ in 0..400 {
        camera.rotate_pitch(-6554);
    }
    assert_eq!(camera.pitch, -(FX_HALF_PI - 6554));
}

#[test]
fn object_straight_ahead_within_far_plane_is_visible() {
    let frustum = Frustum::new(45 * FX_ONE, 6554, 1000 * FX_ONE, FX_ONE);
    let eye = Vec3::new(0, 0, 0);
    let forward = Vec3::new(0, 0, -FX_ONE);
    let near_obj = Vec3::new(0, 0, -500 * FX_ONE);
    assert!(frustum.is_visible(&eye, &forward, &near_obj, FX_ONE));
    let far_obj = Vec3::new(0, 0, -2000 * FX_ONE);
    assert!(!frustum.is_visible(&eye, &forward, &far_obj, FX_ONE));
}

#[test]
fn closer_than_near_plane_is_invisible() {
    let frustum = Frustum::new(45 * FX_ONE, 6554, 1000 * FX_ONE, FX_ONE);
    let eye = Vec3::new(0, 0, 0);
    let forward = Vec3::new(0, 0, -FX_ONE);
    let too_close = Vec3::new(0, 0, -3000);
    assert!(!frustum.is_visible(&eye, &forward, &too_close, FX_ONE));
}

#[test]
fn growing_radius_never_hides_a_visible_object() {
    let frustum = Frustum::new(45 * FX_ONE, 6554, 1000 * FX_ONE, FX_ONE);
    let eye = Vec3::new(0, 0, 0);
    let forward = Vec3::new(0, 0, -FX_ONE);
    let object = Vec3::new(40 * FX_ONE, 0, -90 * FX_ONE);
    let mut radius = FX_ONE;
    let mut seen = false;
    for _ in 0..8 {
        let visible = frustum.is_visible(&eye, &forward, &object, radius);
        if seen {
            assert!(visible);
        }
        seen = seen || visible;
        radius *= 2;
    }
    assert!(seen);
}

#[test]
fn collision_requires_being_inside_twice_the_scale() {
    let bodies = vec![body_at(0, 0, FX_ONE, PlanetType::Mars)];
    assert!(check_collision(&Vec3::new(FX_ONE, 0, 0), &bodies));
    assert!(!check_collision(&Vec3::new(3 * FX_ONE, 0, 0), &bodies));
}

#[test]
fn warp_to_planet_targets_a_spot_in_front_of_the_body() {
    let mut camera = test_camera();
    let body = body_at(10 * FX_ONE, 0, FX_ONE, PlanetType::Jupiter);
    warp_to_planet(&mut camera, &body, 5 * FX_ONE);
    assert!(camera.warp_state.is_active);
    assert_eq!(camera.warp_state.end_position, Vec3::new(10 * FX_ONE, 0, 6 * FX_ONE));
    assert_eq!(camera.warp_state.start_position, camera.eye);
    assert_eq!(camera.warp_state.end_direction, Vec3::new(0, 0, -FX_ONE));
}

#[test]
fn turning_left_banks_and_steps_yaw() {
    let mut camera = test_camera();
    let yaw0 = camera.yaw;
    let input = InputState {
        warp_sun: false,
        warp_earth: false,
        warp_jupiter: false,
        warp_black_hole: false,
        turn_left: true,
        turn_right: false,
        pitch_up: false,
        pitch_down: false,
        forward: false,
        backward: false,
        rise: false,
        sink: false,
    };
    handle_input(&input, &mut camera, &Vec::new());
    assert_eq!(camera.yaw, yaw0 - TURN_SPEED);
    assert_eq!(camera.roll, BANK_ANGLE);
}

#[test]
fn movement_is_blocked_by_collision() {
    let mut camera = test_camera();
    let eye0 = camera.eye;
    let blocking = vec![body_at(0, 4 * FX_ONE, 3 * FX_ONE, PlanetType::Sun)];
    let input = InputState {
        warp_sun: false,
        warp_earth: false,
        warp_jupiter: false,
        warp_black_hole: false,
        turn_left: false,
        turn_right: false,
        pitch_up: false,
        pitch_down: false,
        forward: true,
        backward: false,
        rise: false,
        sink: false,
    };
    handle_input(&input, &mut camera, &blocking);
    assert_eq!(camera.eye, eye0);
    handle_input(&input, &mut camera, &Vec::new());
    assert_ne!(camera.eye, eye0);
}

#[test]
fn roll_decays_when_not_turning() {
    let mut camera = test_camera();
    camera.set_roll(10000);
    let input = InputState {
        warp_sun: false,
        warp_earth: false,
        warp_jupiter: false,
        warp_black_hole: false,
        turn_left: false,
        turn_right: false,
        pitch_up: false,
        pitch_down: false,
        forward: false,
        backward: false,
        rise: false,
        sink: false,
    };
    handle_input(&input, &mut camera, &Vec::new());
    assert_eq!(camera.roll, 10000 * 58982 / 65536);
}

#[test]
fn trail_colors_match_the_tag_table() {
    assert_eq!(trail_color(&PlanetType::Sun), 0xFFFFAA00);
    assert_eq!(trail_color(&PlanetType::Moon), 0xFFCCCCCC);
    assert_eq!(trail_color(&PlanetType::Spaceship), 0xFFFFFFFF);
}
