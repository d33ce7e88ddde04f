//! Rasterizer, framebuffer and pipeline behavior on concrete scenes.

use orbital_renderer::color::Color;
use orbital_renderer::framebuffer::{Framebuffer, DEPTH_INFINITY};
use orbital_renderer::fx::FX_ONE;
use orbital_renderer::mat4::Mat4;
use orbital_renderer::noise::StubNoise;
use orbital_renderer::pipeline::{calculate_detail_level, get_lod_mesh, render, DEPTH_NEAREST};
use orbital_renderer::planet_type::PlanetType;
use orbital_renderer::raster::rasterize;
use orbital_renderer::uniforms::Uniforms;
use orbital_renderer::vec3::{Vec2, Vec3};
use orbital_renderer::vertex::Vertex;
use orbital_renderer::body::TrailParticle;
use orbital_renderer::pipeline::render_trail;
use orbital_renderer::skybox::{Skybox, Star, STAR_DEPTH};

fn screen_vertex(x: i64, y: i64, depth: i64) -> Vertex {
    let mut v = Vertex::new(
        Vec3::new(x * FX_ONE, y * FX_ONE, depth),
        Vec3::new(0, 0, FX_ONE),
        Vec2::new(0, 0),
        Color::new(200, 200, 200),
    );
    v.transformed_position = Vec3::new(x * FX_ONE, y * FX_ONE, depth);
    v.transformed_normal = Vec3::new(0, 0, FX_ONE);
    v
}

fn identity_uniforms() -> Uniforms<StubNoise> {
    Uniforms {
        model_matrix: Mat4::identity(),
        view_matrix: Mat4::identity(),
        projection_matrix: Mat4::identity(),
        viewport_matrix: Mat4::identity(),
        time: 0,
        noise: StubNoise::new(7),
        camera_position: Vec3::zero(),
    }
}

#[test]
fn triangle_fragments_stay_in_bounding_box_at_uniform_depth() {
    let half = FX_ONE / 2;
    let v0 = screen_vertex(10, 10, half);
    let v1 = screen_vertex(20, 10, half);
    let v2 = screen_vertex(10, 20, half);
    let fragments = rasterize(&v0, &v1, &v2, 100, 100);
    assert!(!fragments.is_empty());
    for f in &fragments {
        assert!(f.x >= 10 && f.x <= 20);
        assert!(f.y >= 10 && f.y <= 20);
        assert_eq!(f.depth, half);
    }
}

#[test]
fn rendered_triangle_covers_inner_pixel_and_leaves_outer_empty() {
    let half = FX_ONE / 2;
    let mut fb = Framebuffer::new(100, 100);
    fb.clear();
    let uniforms = identity_uniforms();
    let vertices = vec![
        screen_vertex(10, 10, half),
        screen_vertex(20, 10, half),
        screen_vertex(10, 20, half),
    ];
    render(&mut fb, &uniforms, &vertices, &PlanetType::Mars);
    assert!(fb.z_buffer[12 * 100 + 15] < DEPTH_INFINITY);
    assert_eq!(fb.z_buffer[50 * 100 + 50], DEPTH_INFINITY);
}

#[test]
fn triangle_fully_outside_bounds_yields_no_fragments() {
    let v0 = screen_vertex(-30, 5, 0);
    let v1 = screen_vertex(-20, 5, 0);
    let v2 = screen_vertex(-30, 15, 0);
    assert!(rasterize(&v0, &v1, &v2, 100, 100).is_empty());
    let w0 = screen_vertex(200, 5, 0);
    let w1 = screen_vertex(210, 5, 0);
    let w2 = screen_vertex(200, 15, 0);
    assert!(rasterize(&w0, &w1, &w2, 100, 100).is_empty());
}

#[test]
fn degenerate_triangle_yields_no_fragments() {
    let v0 = screen_vertex(10, 10, 0);
    let v1 = screen_vertex(20, 20, 0);
    let v2 = screen_vertex(30, 30, 0);
    assert!(rasterize(&v0, &v1, &v2, 100, 100).is_empty());
}

#[test]
fn stored_depth_is_minimum_of_offered_depths() {
    let mut fb = Framebuffer::new(4, 4);
    fb.set_current_color(0xFF0000);
    fb.point(1, 1, 5 * FX_ONE);
    fb.point(1, 1, 3 * FX_ONE);
    fb.point(1, 1, 4 * FX_ONE);
    assert_eq!(fb.z_buffer[1 * 4 + 1], 3 * FX_ONE);
}

#[test]
fn should_draw_is_strict_nearer_test() {
    let mut fb = Framebuffer::new(4, 4);
    assert!(fb.should_draw(2, 2, 10 * FX_ONE));
    fb.point(2, 2, 10 * FX_ONE);
    assert!(fb.should_draw(2, 2, 9 * FX_ONE));
    assert!(!fb.should_draw(2, 2, 10 * FX_ONE));
    assert!(!fb.should_draw(2, 2, 11 * FX_ONE));
}

#[test]
fn clear_resets_every_pixel_to_background_and_infinity() {
    let mut fb = Framebuffer::new(3, 2);
    fb.set_background_color(0x102030);
    fb.set_current_color(0xFFFFFF);
    fb.point(1, 1, FX_ONE);
    fb.clear();
    for i in 0..6 {
        assert_eq!(fb.buffer[i], 0x102030);
        assert_eq!(fb.z_buffer[i], DEPTH_INFINITY);
    }
}

#[test]
fn depth_test_keeps_nearer_color() {
    let mut fb = Framebuffer::new(2, 2);
    fb.set_current_color(0x0000FF);
    fb.point(0, 0, 2 * FX_ONE);
    fb.set_current_color(0x00FF00);
    fb.point(0, 0, 3 * FX_ONE);
    assert_eq!(fb.buffer[0], 0x0000FF);
    assert_eq!(fb.z_buffer[0], 2 * FX_ONE);
}

#[test]
fn spaceship_renders_at_nearest_sentinel_depth() {
    let mut fb = Framebuffer::new(40, 40);
    fb.clear();
    let uniforms = identity_uniforms();
    let vertices = vec![
        screen_vertex(5, 5, 10 * FX_ONE),
        screen_vertex(15, 5, 10 * FX_ONE),
        screen_vertex(5, 15, 10 * FX_ONE),
    ];
    render(&mut fb, &uniforms, &vertices, &PlanetType::Spaceship);
    assert_eq!(fb.z_buffer[6 * 40 + 6], DEPTH_NEAREST);
    assert_eq!(fb.buffer[6 * 40 + 6], Color::new(192, 192, 192).to_hex());
}

#[test]
fn trailing_partial_triple_is_dropped() {
    let mut fb = Framebuffer::new(40, 40);
    fb.clear();
    let uniforms = identity_uniforms();
    let vertices = vec![screen_vertex(5, 5, FX_ONE), screen_vertex(15, 5, FX_ONE)];
    render(&mut fb, &uniforms, &vertices, &PlanetType::Mars);
    for i in 0..(40 * 40) {
        assert_eq!(fb.z_buffer[i], DEPTH_INFINITY);
    }
}

#[test]
fn trail_particle_projects_to_a_depth_tested_point() {
    let mut fb = Framebuffer::new(20, 20);
    fb.clear();
    let uniforms = identity_uniforms();
    let particle = TrailParticle {
        position: Vec3::new(0, 0, 0),
        color: 0x00123456,
        lifetime: FX_ONE,
        size: FX_ONE,
    };
    render_trail(&mut fb, &uniforms, &particle);
    assert_eq!(fb.z_buffer[0], 0);
    assert_eq!(fb.buffer[0], 0xFF123456);
}

#[test]
fn skybox_star_lands_on_its_projected_pixel() {
    let mut fb = Framebuffer::new(20, 20);
    fb.clear();
    let uniforms = identity_uniforms();
    let skybox = Skybox {
        stars: vec![Star { position: Vec3::new(5 * FX_ONE, 6 * FX_ONE, 10 * FX_ONE), brightness: FX_ONE }],
    };
    skybox.render(&mut fb, &uniforms, Vec3::zero());
    assert_eq!(fb.z_buffer[6 * 20 + 5], STAR_DEPTH);
    assert_eq!(fb.buffer[6 * 20 + 5], 0xFFFFFF);
}

#[test]
fn detail_level_thresholds_are_exact() {
    assert_eq!(calculate_detail_level(4 * FX_ONE), 0);
    assert_eq!(calculate_detail_level(5 * FX_ONE), 1);
    assert_eq!(calculate_detail_level(19 * FX_ONE), 1);
    assert_eq!(calculate_detail_level(20 * FX_ONE), 2);
}

#[test]
fn lod_mesh_is_the_same_mesh_at_every_level() {
    let vertices = vec![screen_vertex(1, 1, 0), screen_vertex(2, 2, 0)];
    assert_eq!(get_lod_mesh(&vertices, 0).len(), 2);
    assert_eq!(get_lod_mesh(&vertices, 2)[1], vertices[1]);
}
