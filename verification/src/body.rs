//! Scene objects: bodies with orbital parameters, their particle
//! trails, the foreground model, collision testing, and the mapping from
//! per-frame control signals to camera mutations.

use vstd::prelude::*;

use crate::camera::{spec_forward, spec_to_vec3, Camera, WarpState};
use crate::fx::{
    fx_add, fx_add_s, fx_mul, fx_mul_s, fx_sub, fx_sub_s, FX_ONE,
};
use crate::planet_type::PlanetType;
use crate::vec3::{
    spec_v3_add, spec_v3_norm, spec_v3_normalize, spec_v3_scale, spec_v3_sub, SpecVec3, Vec3,
};
use crate::vertex::Vertex;

verus! {

/// The per-frame size decay factor of a trail particle (0.999).
pub const TRAIL_DECAY: i64 = 65470;

/// One particle of a body's trail: position, packed color, remaining
/// lifetime and current size.
#[derive(Clone, Copy, PartialEq, Eq, Structural, Debug)]
pub struct TrailParticle {
    pub position: Vec3,
    pub color: u32,
    pub lifetime: i64,
    pub size: i64,
}

/// A bounded ring of recent positions: at most `max_particles` live
/// particles with decaying lifetime and shrinking size.
pub struct Trail {
    pub particles: Vec<TrailParticle>,
    pub max_particles: usize,
    pub spawn_timer: i64,
}

/// One update step of a particle: lifetime reduced by `dt`, size scaled
/// by the decay factor.
pub open spec fn spec_decay_particle(p: TrailParticle, dt: int) -> TrailParticle {
    TrailParticle {
        position: p.position,
        color: p.color,
        lifetime: fx_sub_s(p.lifetime as int, dt) as i64,
        size: fx_mul_s(p.size as int, TRAIL_DECAY as int) as i64,
    }
}

/// The particle list after one update: every particle decayed, and only
/// those with lifetime left retained, in order.
pub open spec fn spec_update_particles(ps: Seq<TrailParticle>, dt: int) -> Seq<TrailParticle>
    decreases ps.len(),
{
    if ps.len() == 0 {
        Seq::empty()
    } else {
        let prefix = spec_update_particles(ps.drop_last(), dt);
        let p = spec_decay_particle(ps.last(), dt);
        if p.lifetime > 0 {
            prefix.push(p)
        } else {
            prefix
        }
    }
}

impl Trail {
    /// An empty trail bounded by `max_particles`.
    pub fn new(max_particles: usize) -> (t: Trail)
        ensures
            t.particles@.len() == 0,
            t.max_particles == max_particles,
            t.spawn_timer == 0,
    {
        Trail { particles: Vec::new(), max_particles, spawn_timer: 0 }
    }

    /// Ages every particle by `dt`, shrinks it, and drops the expired
    /// ones.
    pub fn update(&mut self, dt: i64)
        ensures
            final(self).particles@ == spec_update_particles(old(self).particles@, dt as int),
            final(self).max_particles == old(self).max_particles,
            final(self).spawn_timer == old(self).spawn_timer,
    {
        let ghost ps0 = self.particles@;
        let mut kept: Vec<TrailParticle> = Vec::new();
        let mut i: usize = 0;
        let total = self.particles.len();
        while i < total
            invariant
                total == ps0.len(),
                i <= total,
                ps0 == self.particles@,
                kept@ == spec_update_particles(ps0.take(i as int), dt as int),
            decreases total - i,
        {
            let p = self.particles[i];
            let lifetime = fx_sub(p.lifetime, dt);
            let size = fx_mul(p.size, TRAIL_DECAY);
            proof {
                assert(ps0.take(i as int + 1).drop_last() =~= ps0.take(i as int));
                assert(ps0.take(i as int + 1).last() == ps0[i as int]);
            }
            if lifetime > 0 {
                kept.push(TrailParticle { position: p.position, color: p.color, lifetime, size });
            }
            i = i + 1;
        }
        proof {
            assert(ps0.take(total as int) =~= ps0);
        }
        self.particles = kept;
    }

    /// Appends a particle for the body's current position, evicting the
    /// oldest when the ring is full.  Moons leave short-lived small
    /// particles; other bodies leave long-lived larger ones.
    pub fn add_particle(&mut self, position: Vec3, color: u32, is_moon: bool)
        ensures
            final(self).particles@ == (if old(self).particles@.len() >= old(self).max_particles
                && old(self).particles@.len() > 0 {
                old(self).particles@.remove(0)
            } else {
                old(self).particles@
            }).push(
                TrailParticle {
                    position,
                    color,
                    lifetime: if is_moon {
                        (2 * FX_ONE) as i64
                    } else {
                        (200000 * FX_ONE) as i64
                    },
                    size: if is_moon {
                        13107
                    } else {
                        32768
                    },
                },
            ),
            final(self).max_particles == old(self).max_particles,
            final(self).spawn_timer == old(self).spawn_timer,
    {
        if self.particles.len() >= self.max_particles {
            if self.particles.len() > 0 {
                self.particles.remove(0);
            }
        }
        let lifetime: i64 = if is_moon {
            2 * FX_ONE
        } else {
            200000 * FX_ONE
        };
        let size: i64 = if is_moon {
            13107
        } else {
            32768
        };
        self.particles.push(TrailParticle { position, color, lifetime, size });
    }
}

/// A scene body: position, uniform scale, rotation, shading tag,
/// orbital parameters, and its owned trail.
pub struct CelestialBody {
    pub position: Vec3,
    pub scale: i64,
    pub rotation: Vec3,
    pub shader_type: PlanetType,
    pub orbital_distance: i64,
    pub orbital_speed: i64,
    pub trail: Trail,
}

/// The foreground viewpoint model: its mesh, scale, and offset from the
/// camera.
pub struct Spaceship {
    pub model: Vec<Vertex>,
    pub scale: i64,
    pub offset: Vec3,
}

/// The trail color of each shading tag (packed with alpha).
pub fn trail_color(tag: &PlanetType) -> (c: u32)
    ensures
        c == spec_trail_color(*tag),
{
    match tag {
        PlanetType::Sun => 0xFFFFAA00,
        PlanetType::Mercury => 0xFFAA8866,
        PlanetType::Venus => 0xFFFFCC99,
        PlanetType::Earth => 0xFF0066FF,
        PlanetType::Mars => 0xFFFF3300,
        PlanetType::Jupiter => 0xFFFFAA66,
        PlanetType::Saturn => 0xFFFFCC66,
        PlanetType::Uranus => 0xFF66FFFF,
        PlanetType::Neptune => 0xFF0066FF,
        PlanetType::Moon => 0xFFCCCCCC,
        PlanetType::BlackHole => 0xFF440044,
        PlanetType::Spaceship => 0xFFFFFFFF,
    }
}

/// The trail color of each shading tag.
pub open spec fn spec_trail_color(tag: PlanetType) -> u32 {
    match tag {
        PlanetType::Sun => 0xFFFFAA00,
        PlanetType::Mercury => 0xFFAA8866,
        PlanetType::Venus => 0xFFFFCC99,
        PlanetType::Earth => 0xFF0066FF,
        PlanetType::Mars => 0xFFFF3300,
        PlanetType::Jupiter => 0xFFFFAA66,
        PlanetType::Saturn => 0xFFFFCC66,
        PlanetType::Uranus => 0xFF66FFFF,
        PlanetType::Neptune => 0xFF0066FF,
        PlanetType::Moon => 0xFFCCCCCC,
        PlanetType::BlackHole => 0xFF440044,
        PlanetType::Spaceship => 0xFFFFFFFF,
    }
}

/// Whether `position` collides with the body at index `i`: closer than
/// twice the body's scale.
pub open spec fn spec_collides_with(position: SpecVec3, body_position: SpecVec3, scale: int) -> bool {
    spec_v3_norm(spec_v3_sub(position, body_position)) < fx_mul_s(scale, (2 * FX_ONE) as int)
}

/// Whether `position` collides with any body of the list.
pub open spec fn spec_collision(position: SpecVec3, bodies: Seq<CelestialBody>) -> bool {
    exists|i: int|
        0 <= i < bodies.len() && spec_collides_with(
            position,
            bodies[i].position@,
            bodies[i].scale as int,
        )
}

/// Tests a candidate position against every body's collision sphere
/// (twice its scale).
pub fn check_collision(position: &Vec3, celestial_bodies: &Vec<CelestialBody>) -> (hit: bool)
    ensures
        hit == spec_collision(position@, celestial_bodies@),
{
    let mut i: usize = 0;
    let total = celestial_bodies.len();
    while i < total
        invariant
            total == celestial_bodies@.len(),
            i <= total,
            forall|j: int|
                0 <= j < i ==> !spec_collides_with(
                    position@,
                    celestial_bodies@[j].position@,
                    celestial_bodies@[j].scale as int,
                ),
        decreases total - i,
    {
        let body = &celestial_bodies[i];
        let distance = position.sub(&body.position).norm();
        let collision_radius = fx_mul(body.scale, 2 * FX_ONE);
        if distance < collision_radius {
            return true;
        }
        i = i + 1;
    }
    false
}

/// The warp target pose in front of a body: offset along z by the warp
/// distance plus the body's scale, looking back at the body.
pub open spec fn spec_warp_target_pos(body_position: SpecVec3, scale: int, distance: int) -> Vec3 {
    spec_to_vec3(
        spec_v3_add(body_position, SpecVec3 { x: 0, y: 0, z: fx_add_s(distance, scale) }),
    )
}

/// The warp target direction: from the target position toward the body.
pub open spec fn spec_warp_target_dir(body_position: SpecVec3, scale: int, distance: int) -> Vec3 {
    spec_to_vec3(
        spec_v3_normalize(
            spec_v3_sub(body_position, spec_warp_target_pos(body_position, scale, distance)@),
        ),
    )
}

/// Starts a warp toward a viewing spot in front of `body`, at the given
/// stand-off distance.
pub fn warp_to_planet(camera: &mut Camera, body: &CelestialBody, distance: i64)
    ensures
        *final(camera) == spec_warped(*old(camera), body.position@, body.scale as int, distance as int),
{
    let offset = Vec3 { x: 0, y: 0, z: fx_add(distance, body.scale) };
    let target_pos = body.position.add(&offset);
    let target_direction = body.position.sub(&target_pos).normalize();
    camera.start_warp(target_pos, target_direction);
}

/// The camera after a warp start toward a body's viewing spot.
pub open spec fn spec_warped(cam: Camera, body_position: SpecVec3, scale: int, distance: int) -> Camera {
    let target_pos = spec_warp_target_pos(body_position, scale, distance);
    let target_dir = spec_warp_target_dir(body_position, scale, distance);
    Camera {
        warp_state: WarpState {
            start_position: cam.eye,
            end_position: target_pos,
            start_direction: spec_to_vec3(spec_forward(cam.pitch as int, cam.yaw as int)),
            end_direction: target_dir,
            progress: 0,
            duration: FX_ONE,
            is_active: true,
        },
        ..cam
    }
}

/// The discrete per-key control signals the driver polls each frame.
#[derive(Clone, Copy, PartialEq, Eq, Structural, Debug)]
pub struct InputState {
    pub warp_sun: bool,
    pub warp_earth: bool,
    pub warp_jupiter: bool,
    pub warp_black_hole: bool,
    pub turn_left: bool,
    pub turn_right: bool,
    pub pitch_up: bool,
    pub pitch_down: bool,
    pub forward: bool,
    pub backward: bool,
    pub rise: bool,
    pub sink: bool,
}

/// The per-frame movement speed (0.2 units).
pub const MOVE_SPEED: i64 = 13107;

/// The per-frame backward speed (half the forward speed).
pub const BACK_SPEED: i64 = 6553;

/// The per-frame vertical speed (0.7 of the forward speed).
pub const RISE_SPEED: i64 = 9175;

/// The per-frame turn step (pi/128 radians).
pub const TURN_SPEED: i64 = 1608;

/// The cosmetic bank angle while turning (pi/16 radians).
pub const BANK_ANGLE: i64 = 12868;

/// The roll decay factor applied when not turning (0.9).
pub const ROLL_DECAY: i64 = 58982;

/// The camera after the warp keys: the first pressed key with its body
/// present starts the matching warp.
pub open spec fn spec_after_warp_keys(cam: Camera, input: InputState, bodies: Seq<CelestialBody>) -> Camera {
    if input.warp_sun && bodies.len() > 0 {
        spec_warped(cam, bodies[0].position@, bodies[0].scale as int, (8 * FX_ONE) as int)
    } else if input.warp_earth && bodies.len() > 3 {
        spec_warped(cam, bodies[3].position@, bodies[3].scale as int, (3 * FX_ONE) as int)
    } else if input.warp_jupiter && bodies.len() > 5 {
        spec_warped(cam, bodies[5].position@, bodies[5].scale as int, (5 * FX_ONE) as int)
    } else if input.warp_black_hole && bodies.len() > 10 {
        spec_warped(cam, bodies[10].position@, bodies[10].scale as int, (12 * FX_ONE) as int)
    } else {
        cam
    }
}

/// The camera after the turn keys: yaw steps with a banking roll, or the
/// roll decays toward zero.
pub open spec fn spec_after_turn_keys(cam: Camera, input: InputState) -> Camera {
    if input.turn_left {
        let yaw = fx_add_s(cam.yaw as int, -TURN_SPEED as int) as i64;
        Camera {
            yaw,
            center: spec_to_vec3(
                spec_v3_add(cam.eye@, spec_forward(cam.pitch as int, yaw as int)),
            ),
            roll: BANK_ANGLE,
            ..cam
        }
    } else if input.turn_right {
        let yaw = fx_add_s(cam.yaw as int, TURN_SPEED as int) as i64;
        Camera {
            yaw,
            center: spec_to_vec3(
                spec_v3_add(cam.eye@, spec_forward(cam.pitch as int, yaw as int)),
            ),
            roll: (-BANK_ANGLE) as i64,
            ..cam
        }
    } else {
        Camera { roll: fx_mul_s(cam.roll as int, ROLL_DECAY as int) as i64, ..cam }
    }
}

/// One pitch step, clamped inside the pole margins.
pub open spec fn spec_pitch_step(cam: Camera, angle: int) -> Camera {
    let pitch = crate::fx::fx_clamp_s(
        fx_add_s(cam.pitch as int, angle),
        (-crate::fx::FX_HALF_PI + crate::camera::PITCH_MARGIN) as int,
        (crate::fx::FX_HALF_PI - crate::camera::PITCH_MARGIN) as int,
    ) as i64;
    Camera {
        pitch,
        center: spec_to_vec3(spec_v3_add(cam.eye@, spec_forward(pitch as int, cam.yaw as int))),
        ..cam
    }
}

/// The camera after the pitch keys (both may fire in one frame).
pub open spec fn spec_after_pitch_keys(cam: Camera, input: InputState) -> Camera {
    let cam1 = if input.pitch_up {
        spec_pitch_step(cam, TURN_SPEED as int)
    } else {
        cam
    };
    if input.pitch_down {
        spec_pitch_step(cam1, -TURN_SPEED as int)
    } else {
        cam1
    }
}

/// The movement the held keys ask for, along the camera's derived
/// forward and up vectors.
pub open spec fn spec_movement(cam: Camera, input: InputState) -> SpecVec3 {
    let fwd = spec_forward(cam.pitch as int, cam.yaw as int);
    let up = crate::camera::spec_up();
    let m0 = SpecVec3 { x: 0, y: 0, z: 0 };
    let m1 = if input.forward {
        spec_v3_add(m0, spec_v3_scale(fwd, MOVE_SPEED as int))
    } else {
        m0
    };
    let m2 = if input.backward {
        spec_v3_add(m1, spec_v3_scale(fwd, -BACK_SPEED as int))
    } else {
        m1
    };
    let m3 = if input.rise {
        spec_v3_add(m2, spec_v3_scale(up, RISE_SPEED as int))
    } else {
        m2
    };
    if input.sink {
        spec_v3_add(m3, spec_v3_scale(up, -RISE_SPEED as int))
    } else {
        m3
    }
}

/// The camera after the whole input application: warp keys, turning,
/// pitching, then the collision-gated movement.
pub open spec fn spec_handle_input(cam: Camera, input: InputState, bodies: Seq<CelestialBody>) -> Camera {
    let cam3 = spec_after_pitch_keys(
        spec_after_turn_keys(spec_after_warp_keys(cam, input, bodies), input),
        input,
    );
    let proposed = spec_to_vec3(spec_v3_add(cam3.eye@, spec_movement(cam3, input)));
    if !spec_collision(proposed@, bodies) {
        Camera {
            eye: proposed,
            center: spec_to_vec3(
                spec_v3_add(proposed@, spec_forward(cam3.pitch as int, cam3.yaw as int)),
            ),
            ..cam3
        }
    } else {
        cam3
    }
}

/// Applies one frame of control signals to the camera: warp shortcuts,
/// turning with cosmetic banking, clamped pitching, then movement along
/// the derived axes, committed only when it collides with no body.
#[verifier::rlimit(60)]
pub fn handle_input(input: &InputState, camera: &mut Camera, celestial_bodies: &Vec<CelestialBody>)
    ensures
        *final(camera) == spec_handle_input(*old(camera), *input, celestial_bodies@),
{
    let ghost cam0 = *camera;
    if input.warp_sun && celestial_bodies.len() > 0 {
        warp_to_planet(camera, &celestial_bodies[0], 8 * FX_ONE);
    } else if input.warp_earth && celestial_bodies.len() > 3 {
        warp_to_planet(camera, &celestial_bodies[3], 3 * FX_ONE);
    } else if input.warp_jupiter && celestial_bodies.len() > 5 {
        warp_to_planet(camera, &celestial_bodies[5], 5 * FX_ONE);
    } else if input.warp_black_hole && celestial_bodies.len() > 10 {
        warp_to_planet(camera, &celestial_bodies[10], 12 * FX_ONE);
    }
    proof {
        assert(*camera == spec_after_warp_keys(cam0, *input, celestial_bodies@));
    }
    let ghost cam1 = *camera;
    if input.turn_left {
        camera.rotate_yaw(-TURN_SPEED);
        camera.set_roll(BANK_ANGLE);
    } else if input.turn_right {
        camera.rotate_yaw(TURN_SPEED);
        camera.set_roll(-BANK_ANGLE);
    } else {
        let decayed = fx_mul(camera.roll, ROLL_DECAY);
        camera.set_roll(decayed);
    }
    proof {
        assert(*camera == spec_after_turn_keys(cam1, *input));
    }
    let ghost cam2 = *camera;
    if input.pitch_up {
        camera.rotate_pitch(TURN_SPEED);
    }
    if input.pitch_down {
        camera.rotate_pitch(-TURN_SPEED);
    }
    proof {
        assert(*camera == spec_after_pitch_keys(cam2, *input));
    }
    let ghost cam3 = *camera;
    let mut movement = Vec3 { x: 0, y: 0, z: 0 };
    if input.forward {
        movement = movement.add(&camera.get_forward().scale(MOVE_SPEED));
    }
    if input.backward {
        movement = movement.add(&camera.get_forward().scale(-BACK_SPEED));
    }
    if input.rise {
        movement = movement.add(&camera.get_up().scale(RISE_SPEED));
    }
    if input.sink {
        movement = movement.add(&camera.get_up().scale(-RISE_SPEED));
    }
    proof {
        assert(movement@ == spec_movement(cam3, *input));
    }
    let new_position = camera.eye.add(&movement);
    if !check_collision(&new_position, celestial_bodies) {
        camera.eye = new_position;
        let forward = camera.get_forward();
        camera.center = camera.eye.add(&forward);
    }
}

} // verus!
