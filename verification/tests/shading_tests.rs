//! Colors, layer compositing, shaders, trigonometry, noise and trails on
//! concrete values.

use orbital_renderer::body::Trail;
use orbital_renderer::color::Color;
use orbital_renderer::fragment::Fragment;
use orbital_renderer::fx::{
    fx_add, fx_div, fx_mul, FX_HALF, FX_HALF_PI, FX_ONE, FX_PI,
};
use orbital_renderer::mat4::{normal_matrix, Mat3, Mat4};
use orbital_renderer::noise::{
    create_cell_noise, create_cloud_noise, create_ground_noise, create_lava_noise, create_noise,
    FractalKind, NoiseField, NoiseKind, StubNoise,
};
use orbital_renderer::planet_type::PlanetType;
use orbital_renderer::shaders::{
    black_hole_color, blend_layers, cloud_color, fragment_shader, lava_color, vertex_shader,
};
use orbital_renderer::skybox::Skybox;
use orbital_renderer::transform::{
    create_model_matrix, create_perspective_matrix, create_view_matrix, create_viewport_matrix,
};
use orbital_renderer::trig::{acos_fx, asin_fx, atan2_fx, cos_fx, sin_fx, sqrt_fx};
use orbital_renderer::uniforms::Uniforms;
use orbital_renderer::vec3::{Vec2, Vec3};
use orbital_renderer::vertex::Vertex;

fn fragment_at(x: i64, y: i64, z: i64, intensity: i64) -> Fragment {
    Fragment {
        x: 0,
        y: 0,
        depth: z,
        normal: Vec3::new(0, 0, FX_ONE),
        vertex_position: Vec3::new(x, y, z),
        color: Color::new(128, 128, 128),
        intensity,
    }
}

#[test]
fn dark_overlay_leaves_base_unchanged() {
    let base = Color::new(17, 99, 230);
    let dark = Color::new(40, 90, 80);
    assert_eq!(blend_layers(base, dark), base);
    let edge = Color::new(76, 76, 77);
    assert_eq!(blend_layers(base, edge), base);
}

#[test]
fn bright_overlay_blends_at_fixed_weight() {
    let base = Color::new(100, 100, 100);
    let bright = Color::new(255, 255, 255);
    assert_eq!(blend_layers(base, bright), Color::new(208, 208, 208));
    let black = Color::new(0, 0, 0);
    let just_over = Color::new(76, 77, 77);
    assert_eq!(blend_layers(black, just_over), Color::new(53, 53, 53));
}

#[test]
fn color_packing_and_channel_ops_are_exact() {
    assert_eq!(Color::new(1, 2, 3).to_hex(), 0x010203);
    assert_eq!(Color::new(100, 100, 100).scale(FX_HALF), Color::new(50, 50, 50));
    assert_eq!(Color::new(100, 0, 255).scale(2 * FX_ONE), Color::new(200, 0, 255));
    assert_eq!(Color::new(9, 9, 9).scale(-FX_ONE), Color::new(0, 0, 0));
    let mid = Color::new(0, 100, 200).lerp(&Color::new(100, 0, 200), FX_HALF);
    assert_eq!(mid, Color::new(50, 50, 200));
}

#[test]
fn cloud_layer_is_black_below_threshold_and_white_at_peak() {
    assert_eq!(cloud_color(FX_ONE, 0), Color::new(0, 0, 0));
    assert_eq!(cloud_color(FX_ONE, 6554), Color::new(0, 0, 0));
    assert_eq!(cloud_color(FX_ONE, FX_ONE), Color::new(255, 255, 255));
}

#[test]
fn lava_color_matches_hand_computed_blend() {
    let frag = fragment_at(0, 0, 0, FX_ONE);
    assert_eq!(lava_color(&frag, 0, 0), Color::new(255, 194, 22));
}

#[test]
fn singularity_core_is_always_black() {
    let frag = fragment_at(6554, 5 * FX_ONE, 6554, FX_ONE);
    for n in [-FX_ONE, 0, FX_ONE] {
        assert_eq!(black_hole_color(&frag, 12345, n), Color::new(0, 0, 0));
    }
}

#[test]
fn foreground_model_gets_flat_color() {
    let frag = fragment_at(0, 0, 0, FX_ONE);
    let uniforms = Uniforms {
        model_matrix: Mat4::identity(),
        view_matrix: Mat4::identity(),
        projection_matrix: Mat4::identity(),
        viewport_matrix: Mat4::identity(),
        time: 3,
        noise: StubNoise::new(1),
        camera_position: Vec3::zero(),
    };
    assert_eq!(
        fragment_shader(&frag, &uniforms, &PlanetType::Spaceship),
        Color::new(192, 192, 192)
    );
}

#[test]
fn fixed_point_arithmetic_matches_expected_values() {
    assert_eq!(fx_mul(2 * FX_ONE, FX_HALF), FX_ONE);
    assert_eq!(fx_div(FX_ONE, 2 * FX_ONE), FX_HALF);
    assert_eq!(fx_div(FX_ONE, 0), 0);
    assert_eq!(fx_add(i64::MAX, 1), i64::MAX);
    assert_eq!(sqrt_fx(4 * FX_ONE), 2 * FX_ONE);
    assert_eq!(sqrt_fx(-FX_ONE), 0);
}

#[test]
fn trigonometry_hits_its_anchor_points() {
    assert_eq!(sin_fx(0), 0);
    assert_eq!(sin_fx(FX_PI), 0);
    let peak = sin_fx(FX_HALF_PI);
    assert!(peak >= 65000 && peak <= FX_ONE);
    assert!(cos_fx(0) >= 65000 && cos_fx(0) <= FX_ONE);
    assert_eq!(asin_fx(FX_ONE), FX_HALF_PI);
    assert_eq!(asin_fx(-FX_ONE), -FX_HALF_PI);
    assert_eq!(acos_fx(FX_ONE), 0);
    assert_eq!(atan2_fx(0, FX_ONE), 0);
    assert!(atan2_fx(FX_ONE, 0) > FX_HALF_PI - 2000);
}

#[test]
fn stub_noise_is_deterministic_and_in_range() {
    let field = StubNoise::new(99);
    let a = field.get_noise_2d(12345, -67890);
    let b = field.get_noise_2d(12345, -67890);
    assert_eq!(a, b);
    assert!(a >= -FX_ONE && a <= FX_ONE);
    let c = field.get_noise_3d(1, 2, 3);
    assert!(c >= -FX_ONE && c <= FX_ONE);
}

#[test]
fn noise_configurations_carry_their_fractal_parameters() {
    assert_eq!(create_noise(), create_cloud_noise());
    let cloud = create_cloud_noise();
    assert_eq!(cloud.seed, 1337);
    assert!(matches!(cloud.kind, NoiseKind::OpenSimplex));
    let cell = create_cell_noise();
    assert_eq!(cell.frequency, 6553);
    let ground = create_ground_noise();
    assert_eq!(ground.octaves, 5);
    assert!(matches!(ground.fractal, FractalKind::FractionalBrownian));
    let lava = create_lava_noise();
    assert_eq!(lava.seed, 42);
    assert!(matches!(lava.kind, NoiseKind::Perlin));
    assert_eq!(lava.frequency, 131);
}

#[test]
fn trail_ring_evicts_oldest_when_full() {
    let mut trail = Trail::new(2);
    trail.add_particle(Vec3::new(1, 0, 0), 0xFF0000, false);
    trail.add_particle(Vec3::new(2, 0, 0), 0xFF0000, false);
    trail.add_particle(Vec3::new(3, 0, 0), 0xFF0000, false);
    assert_eq!(trail.particles.len(), 2);
    assert_eq!(trail.particles[0].position, Vec3::new(2, 0, 0));
    assert_eq!(trail.particles[1].position, Vec3::new(3, 0, 0));
}

#[test]
fn trail_update_decays_and_drops_expired_particles() {
    let mut trail = Trail::new(4);
    trail.add_particle(Vec3::new(1, 0, 0), 0xFF0000, true);
    trail.update(FX_ONE);
    assert_eq!(trail.particles.len(), 1);
    assert_eq!(trail.particles[0].lifetime, FX_ONE);
    assert_eq!(trail.particles[0].size, fx_mul(13107, 65470));
    trail.update(FX_ONE);
    assert_eq!(trail.particles.len(), 0);
}

#[test]
fn skybox_scatters_the_requested_star_count_within_the_shell() {
    let skybox = Skybox::new(25);
    assert_eq!(skybox.stars.len(), 25);
    for star in &skybox.stars {
        assert!(star.position.x.abs() <= 100 * FX_ONE);
        assert!(star.position.y.abs() <= 100 * FX_ONE);
        assert!(star.position.z.abs() <= 100 * FX_ONE);
        assert!(star.brightness >= FX_HALF && star.brightness < FX_ONE);
    }
}

#[test]
fn model_matrix_carries_translation_and_scale() {
    let m = create_model_matrix(
        Vec3::new(FX_ONE, 2 * FX_ONE, 3 * FX_ONE),
        FX_HALF,
        Vec3::new(0, 0, 0),
    );
    assert_eq!(m.m03, FX_ONE);
    assert_eq!(m.m13, 2 * FX_ONE);
    assert_eq!(m.m23, 3 * FX_ONE);
    assert_eq!(m.m33, FX_ONE);
}

#[test]
fn viewport_matrix_scales_to_half_extents() {
    let m = create_viewport_matrix(800 * FX_ONE, 600 * FX_ONE);
    assert_eq!(m.m00, 400 * FX_ONE);
    assert_eq!(m.m03, 400 * FX_ONE);
    assert_eq!(m.m11, -300 * FX_ONE);
    assert_eq!(m.m13, 300 * FX_ONE);
}

#[test]
fn perspective_matrix_has_the_projective_row() {
    let m = create_perspective_matrix(800 * FX_ONE, 600 * FX_ONE);
    assert_eq!(m.m32, -FX_ONE);
    assert_eq!(m.m33, 0);
    assert!(m.m00 > 0 && m.m11 > 0);
    assert!(m.m22 < 0);
}

#[test]
fn view_matrix_from_origin_looking_down_z_is_identityish() {
    let m = create_view_matrix(
        Vec3::new(0, 0, 0),
        Vec3::new(0, 0, -FX_ONE),
        Vec3::new(0, FX_ONE, 0),
    );
    assert_eq!(m.m00, FX_ONE);
    assert_eq!(m.m11, FX_ONE);
    assert_eq!(m.m22, FX_ONE);
    assert_eq!(m.m03, 0);
}

#[test]
fn singular_model_block_falls_back_to_identity_normal_matrix() {
    let zero = Mat4 {
        m00: 0, m01: 0, m02: 0, m03: 0,
        m10: 0, m11: 0, m12: 0, m13: 0,
        m20: 0, m21: 0, m22: 0, m23: 0,
        m30: 0, m31: 0, m32: 0, m33: FX_ONE,
    };
    assert_eq!(normal_matrix(&zero), Mat3::identity());
}

#[test]
fn identity_transform_keeps_screen_position() {
    let uniforms = Uniforms {
        model_matrix: Mat4::identity(),
        view_matrix: Mat4::identity(),
        projection_matrix: Mat4::identity(),
        viewport_matrix: Mat4::identity(),
        time: 0,
        noise: StubNoise::new(0),
        camera_position: Vec3::zero(),
    };
    let v = Vertex::new(
        Vec3::new(7 * FX_ONE, -2 * FX_ONE, 3 * FX_ONE),
        Vec3::new(0, FX_ONE, 0),
        Vec2::new(0, 0),
        Color::new(1, 2, 3),
    );
    let out = vertex_shader(&v, &uniforms);
    assert_eq!(out.transformed_position, v.position);
    assert_eq!(out.position, v.position);
    assert_eq!(out.color, v.color);
}
