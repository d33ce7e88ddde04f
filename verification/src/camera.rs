//! The camera: free-fly controls and the cinematic warp transition.
//!
//! Pitch and yaw are the sole orientation source of truth; the forward
//! vector is always re-derived from them, and roll is a cosmetic visual
//! parameter that never affects movement.  The warp state machine eases
//! position and direction toward a target and, on cumulative progress
//! reaching one, snaps exactly onto the target pose — exact arrival
//! despite the non-monotonic ease curve.

use vstd::prelude::*;

use crate::fx::{
    fx_add, fx_add_s, fx_clamp, fx_clamp_s, fx_div, fx_div_s, fx_mul, fx_mul_s, FX_HALF,
    FX_HALF_PI, FX_ONE, FX_PI,
};
use crate::trig::{asin_fx, asin_s, atan2_fx, atan2_s, cos_fx, cos_s, sin_fx, sin_s, FX_TWO_PI_EXACT};
use crate::vec3::{
    spec_v3_add, spec_v3_cross, spec_v3_lerp, spec_v3_normalize, spec_v3_scale, spec_v3_sub,
    SpecVec3, Vec3,
};

verus! {

/// The clamp margin keeping pitch away from the poles (0.1 radians).
pub const PITCH_MARGIN: i64 = 6554;

/// The warp transition's bookkeeping: start and end pose, progress in
/// `[0, 1]`, duration, and the active flag.
#[derive(Clone, Copy, PartialEq, Eq, Structural, Debug)]
pub struct WarpState {
    pub start_position: Vec3,
    pub end_position: Vec3,
    pub start_direction: Vec3,
    pub end_direction: Vec3,
    pub progress: i64,
    pub duration: i64,
    pub is_active: bool,
}

impl WarpState {
    /// An idle warp state: zero pose, default backward-facing
    /// directions, unit duration.
    pub fn new() -> (w: WarpState)
        ensures
            w == spec_warp_state_idle(),
    {
        WarpState {
            start_position: Vec3 { x: 0, y: 0, z: 0 },
            end_position: Vec3 { x: 0, y: 0, z: 0 },
            start_direction: Vec3 { x: 0, y: 0, z: -FX_ONE },
            end_direction: Vec3 { x: 0, y: 0, z: -FX_ONE },
            progress: 0,
            duration: FX_ONE,
            is_active: false,
        }
    }
}

/// The idle warp state.
pub open spec fn spec_warp_state_idle() -> WarpState {
    WarpState {
        start_position: Vec3 { x: 0, y: 0, z: 0 },
        end_position: Vec3 { x: 0, y: 0, z: 0 },
        start_direction: Vec3 { x: 0, y: 0, z: (-FX_ONE) as i64 },
        end_direction: Vec3 { x: 0, y: 0, z: (-FX_ONE) as i64 },
        progress: 0,
        duration: FX_ONE,
        is_active: false,
    }
}

/// The forward vector derived from pitch and yaw:
/// `(cos yaw * cos pitch, sin pitch, sin yaw * cos pitch)`, normalized.
pub open spec fn spec_forward(pitch: int, yaw: int) -> SpecVec3 {
    spec_v3_normalize(
        SpecVec3 {
            x: fx_mul_s(cos_s(yaw), cos_s(pitch)),
            y: sin_s(pitch),
            z: fx_mul_s(sin_s(yaw), cos_s(pitch)),
        },
    )
}

/// The fixed world-up vector.
pub open spec fn spec_up() -> SpecVec3 {
    SpecVec3 { x: 0, y: FX_ONE as int, z: 0 }
}

/// A `Vec3` holding a spec vector's (in-range) components.
pub open spec fn spec_to_vec3(v: SpecVec3) -> Vec3 {
    Vec3 { x: v.x as i64, y: v.y as i64, z: v.z as i64 }
}

/// The viewpoint: eye position, derived look-at center, up vector,
/// orientation angles, and the warp state.
#[derive(Clone, Copy, PartialEq, Eq, Structural, Debug)]
pub struct Camera {
    pub eye: Vec3,
    pub center: Vec3,
    pub up: Vec3,
    pub pitch: i64,
    pub yaw: i64,
    pub roll: i64,
    pub warp_state: WarpState,
}

/// The orientation decomposition of a direction: pitch from its height,
/// yaw from its ground-plane angle.
pub open spec fn spec_pitch_of(dir: SpecVec3) -> int {
    asin_s(dir.y)
}

/// The yaw decomposition of a direction.
pub open spec fn spec_yaw_of(dir: SpecVec3) -> int {
    atan2_s(dir.z, dir.x)
}

impl Camera {
    /// A camera at `eye` looking toward `center`: pitch and yaw are
    /// decomposed from the normalized offset, the up vector is fixed to
    /// world up, and the warp state starts idle.
    pub fn new(eye: Vec3, center: Vec3, up: Vec3) -> (c: Camera)
        ensures
            c.eye == eye,
            c.center == center,
            c.up@ == spec_up(),
            c.pitch == spec_pitch_of(spec_v3_normalize(spec_v3_sub(center@, eye@))),
            c.yaw == spec_yaw_of(spec_v3_normalize(spec_v3_sub(center@, eye@))),
            c.roll == 0,
            c.warp_state == spec_warp_state_idle(),
    {
        let forward = center.sub(&eye).normalize();
        let pitch = asin_fx(forward.y);
        let yaw = atan2_fx(forward.z, forward.x);
        Camera {
            eye,
            center,
            up: Vec3 { x: 0, y: FX_ONE, z: 0 },
            pitch,
            yaw,
            roll: 0,
            warp_state: WarpState::new(),
        }
    }

    /// The forward vector, re-derived from pitch and yaw.
    pub fn get_forward(&self) -> (r: Vec3)
        ensures
            r@ == spec_forward(self.pitch as int, self.yaw as int),
    {
        let fx_cos_yaw = cos_fx(self.yaw);
        let fx_cos_pitch = cos_fx(self.pitch);
        Vec3 {
            x: fx_mul(fx_cos_yaw, fx_cos_pitch),
            y: sin_fx(self.pitch),
            z: fx_mul(sin_fx(self.yaw), fx_cos_pitch),
        }.normalize()
    }

    /// The fixed world-up vector.
    pub fn get_up(&self) -> (r: Vec3)
        ensures
            r@ == spec_up(),
    {
        Vec3 { x: 0, y: FX_ONE, z: 0 }
    }

    /// The right vector: forward crossed with up, normalized.
    pub fn get_right(&self) -> (r: Vec3)
        ensures
            r@ == spec_v3_normalize(
                spec_v3_cross(spec_forward(self.pitch as int, self.yaw as int), spec_up()),
            ),
    {
        self.get_forward().cross(&self.get_up()).normalize()
    }

    fn update_center(&mut self)
        ensures
            *final(self) == (Camera {
                center: spec_to_vec3(
                    spec_v3_add(
                        old(self).eye@,
                        spec_forward(old(self).pitch as int, old(self).yaw as int),
                    ),
                ),
                ..*old(self)
            }),
    {
        let forward = self.get_forward();
        self.center = self.eye.add(&forward);
    }

    /// Moves the eye along the derived forward vector and re-derives the
    /// center.
    pub fn move_forward(&mut self, amount: i64)
        ensures
            final(self).eye@ == spec_v3_add(
                old(self).eye@,
                spec_v3_scale(
                    spec_forward(old(self).pitch as int, old(self).yaw as int),
                    amount as int,
                ),
            ),
            final(self).center@ == spec_v3_add(
                final(self).eye@,
                spec_forward(old(self).pitch as int, old(self).yaw as int),
            ),
            final(self).pitch == old(self).pitch,
            final(self).yaw == old(self).yaw,
            final(self).roll == old(self).roll,
            final(self).up == old(self).up,
            final(self).warp_state == old(self).warp_state,
    {
        let forward = self.get_forward();
        self.eye = self.eye.add(&forward.scale(amount));
        self.update_center();
    }

    /// Moves the eye along the up vector and re-derives the center.
    pub fn move_up(&mut self, amount: i64)
        ensures
            final(self).eye@ == spec_v3_add(
                old(self).eye@,
                spec_v3_scale(spec_up(), amount as int),
            ),
            final(self).center@ == spec_v3_add(
                final(self).eye@,
                spec_forward(old(self).pitch as int, old(self).yaw as int),
            ),
            final(self).pitch == old(self).pitch,
            final(self).yaw == old(self).yaw,
            final(self).roll == old(self).roll,
            final(self).up == old(self).up,
            final(self).warp_state == old(self).warp_state,
    {
        let up = self.get_up();
        self.eye = self.eye.add(&up.scale(amount));
        self.update_center();
    }

    /// Turns the camera about the vertical axis and re-derives the
    /// center.
    pub fn rotate_yaw(&mut self, angle: i64)
        ensures
            final(self).yaw == fx_add_s(old(self).yaw as int, angle as int),
            final(self).pitch == old(self).pitch,
            final(self).eye == old(self).eye,
            final(self).roll == old(self).roll,
            final(self).up == old(self).up,
            final(self).warp_state == old(self).warp_state,
            final(self).center@ == spec_v3_add(
                old(self).eye@,
                spec_forward(old(self).pitch as int, final(self).yaw as int),
            ),
    {
        self.yaw = fx_add(self.yaw, angle);
        self.update_center();
    }

    /// Tilts the camera, clamping pitch inside the open pole margins,
    /// and re-derives the center.
    pub fn rotate_pitch(&mut self, angle: i64)
        ensures
            final(self).pitch == fx_clamp_s(
                fx_add_s(old(self).pitch as int, angle as int),
                (-FX_HALF_PI + PITCH_MARGIN) as int,
                (FX_HALF_PI - PITCH_MARGIN) as int,
            ),
            final(self).yaw == old(self).yaw,
            final(self).eye == old(self).eye,
            final(self).roll == old(self).roll,
            final(self).up == old(self).up,
            final(self).warp_state == old(self).warp_state,
            final(self).center@ == spec_v3_add(
                old(self).eye@,
                spec_forward(final(self).pitch as int, old(self).yaw as int),
            ),
    {
        self.pitch = fx_clamp(
            fx_add(self.pitch, angle),
            -FX_HALF_PI + PITCH_MARGIN,
            FX_HALF_PI - PITCH_MARGIN,
        );
        self.update_center();
    }

    /// Sets the cosmetic roll angle directly.
    pub fn set_roll(&mut self, angle: i64)
        ensures
            *final(self) == (Camera { roll: angle, ..*old(self) }),
    {
        self.roll = angle;
    }

    /// Starts a warp: snapshots the current eye and forward as the start
    /// pose, stores the target pose, resets progress, sets the active
    /// flag.  One time unit of duration.
    pub fn start_warp(&mut self, target_pos: Vec3, target_direction: Vec3)
        ensures
            final(self).warp_state.start_position == old(self).eye,
            final(self).warp_state.end_position == target_pos,
            final(self).warp_state.start_direction == spec_to_vec3(
                spec_forward(old(self).pitch as int, old(self).yaw as int),
            ),
            final(self).warp_state.end_direction == target_direction,
            final(self).warp_state.progress == 0,
            final(self).warp_state.duration == FX_ONE,
            final(self).warp_state.is_active,
            final(self).eye == old(self).eye,
            final(self).center == old(self).center,
            final(self).pitch == old(self).pitch,
            final(self).yaw == old(self).yaw,
            final(self).roll == old(self).roll,
            final(self).up == old(self).up,
    {
        let forward = self.get_forward();
        self.warp_state.start_position = self.eye;
        self.warp_state.end_position = target_pos;
        self.warp_state.start_direction = forward;
        self.warp_state.end_direction = target_direction;
        self.warp_state.progress = 0;
        self.warp_state.duration = FX_ONE;
        self.warp_state.is_active = true;
    }

    /// Advances the warp by `dt`.
    ///
    /// Inactive warps change nothing.  While progress stays below one,
    /// the eased parameter `sin(progress * pi)` interpolates position
    /// and direction and banks the roll.  Warp completion is exact: the
    /// moment cumulative progress reaches one, the eye equals the target
    /// position exactly, pitch and yaw equal the target direction's
    /// decomposition, the roll resets, and the warp deactivates.
    pub fn update_warp(&mut self, dt: i64)
        ensures
            !old(self).warp_state.is_active ==> *final(self) == *old(self),
            old(self).warp_state.is_active && fx_add_s(
                old(self).warp_state.progress as int,
                fx_div_s(dt as int, old(self).warp_state.duration as int),
            ) >= FX_ONE ==> {
                &&& final(self).eye == old(self).warp_state.end_position
                &&& final(self).pitch == spec_pitch_of(old(self).warp_state.end_direction@)
                &&& final(self).yaw == spec_yaw_of(old(self).warp_state.end_direction@)
                &&& final(self).roll == 0
                &&& !final(self).warp_state.is_active
                &&& final(self).center@ == spec_v3_add(
                    final(self).eye@,
                    spec_forward(final(self).pitch as int, final(self).yaw as int),
                )
            },
            old(self).warp_state.is_active && fx_add_s(
                old(self).warp_state.progress as int,
                fx_div_s(dt as int, old(self).warp_state.duration as int),
            ) < FX_ONE ==> {
                let t = sin_s(
                    fx_mul_s(
                        fx_add_s(
                            old(self).warp_state.progress as int,
                            fx_div_s(dt as int, old(self).warp_state.duration as int),
                        ),
                        FX_PI as int,
                    ),
                );
                let dir = spec_v3_normalize(
                    spec_v3_lerp(
                        old(self).warp_state.start_direction@,
                        old(self).warp_state.end_direction@,
                        t,
                    ),
                );
                &&& final(self).eye@ == spec_v3_lerp(
                    old(self).warp_state.start_position@,
                    old(self).warp_state.end_position@,
                    t,
                )
                &&& final(self).pitch == spec_pitch_of(dir)
                &&& final(self).yaw == spec_yaw_of(dir)
                &&& final(self).roll == fx_mul_s(
                    sin_s(fx_mul_s(t, FX_TWO_PI_EXACT as int)),
                    FX_HALF as int,
                )
                &&& final(self).warp_state.is_active
                &&& final(self).warp_state.progress == fx_add_s(
                    old(self).warp_state.progress as int,
                    fx_div_s(dt as int, old(self).warp_state.duration as int),
                )
                &&& final(self).warp_state.start_position == old(self).warp_state.start_position
                &&& final(self).warp_state.end_position == old(self).warp_state.end_position
                &&& final(self).warp_state.start_direction == old(self).warp_state.start_direction
                &&& final(self).warp_state.end_direction == old(self).warp_state.end_direction
                &&& final(self).warp_state.duration == old(self).warp_state.duration
                &&& final(self).up == old(self).up
                &&& final(self).center@ == spec_v3_add(
                    final(self).eye@,
                    spec_forward(final(self).pitch as int, final(self).yaw as int),
                )
            },
            old(self).warp_state.is_active && fx_add_s(
                old(self).warp_state.progress as int,
                fx_div_s(dt as int, old(self).warp_state.duration as int),
            ) >= FX_ONE ==> {
                &&& final(self).warp_state.start_position == old(self).warp_state.start_position
                &&& final(self).warp_state.end_position == old(self).warp_state.end_position
                &&& final(self).warp_state.start_direction == old(self).warp_state.start_direction
                &&& final(self).warp_state.end_direction == old(self).warp_state.end_direction
                &&& final(self).warp_state.duration == old(self).warp_state.duration
                &&& final(self).warp_state.progress == fx_add_s(
                    old(self).warp_state.progress as int,
                    fx_div_s(dt as int, old(self).warp_state.duration as int),
                )
                &&& final(self).up == old(self).up
            },
    {
        if !self.warp_state.is_active {
            return;
        }
        self.warp_state.progress = fx_add(
            self.warp_state.progress,
            fx_div(dt, self.warp_state.duration),
        );
        if self.warp_state.progress >= FX_ONE {
            self.eye = self.warp_state.end_position;
            let direction = self.warp_state.end_direction;
            self.pitch = asin_fx(direction.y);
            self.yaw = atan2_fx(direction.z, direction.x);
            self.roll = 0;
            self.warp_state.is_active = false;
            self.update_center();
            return;
        }
        let t = sin_fx(fx_mul(self.warp_state.progress, FX_PI));
        self.eye = self.warp_state.start_position.lerp(&self.warp_state.end_position, t);
        let direction = self.warp_state.start_direction.lerp(
            &self.warp_state.end_direction,
            t,
        ).normalize();
        self.pitch = asin_fx(direction.y);
        self.yaw = atan2_fx(direction.z, direction.x);
        self.roll = fx_mul(sin_fx(fx_mul(t, FX_TWO_PI_EXACT)), FX_HALF);
        self.update_center();
    }
}

} // verus!
