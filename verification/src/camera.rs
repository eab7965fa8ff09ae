//! The orbit camera.
//!
//! The camera looks at a center point from a distance `radius`, in the
//! direction given by a yaw angle about the world up axis and a pitch angle
//! above the horizon; `up` completes the view basis. The eye position is
//! derived from that state, so `radius` *is* the eye-to-center distance:
//! orbiting changes only the angles and therefore preserves the distance
//! exactly, and zooming moves the eye along the view axis with a hard
//! minimum-distance floor, so the eye can never cross the center. The pitch
//! is clamped strictly inside a quarter turn, which keeps the view direction
//! from ever becoming parallel to the up vector.

use vstd::prelude::*;
use crate::fixed::{
    FX_ONE, sat64, spec_clamp, spec_fx_add, spec_fx_sub, spec_fx_mul, fx_add, fx_clamp, fx_mul,
    emod_i128,
};
use crate::trig::{
    FX_TAU, FX_PI, FX_HALF_PI, spec_fx_sin, spec_fx_cos, spec_fx_atan2, fx_sin, fx_cos, fx_atan2,
};
use crate::geometry::{Vec3Fx, spec_v3};

verus! {

/// Closest the eye may come to the center (0.1 in fixed-point form).
pub const MIN_RADIUS: i64 = 6554;

/// Largest magnitude the pitch may take (about 1.47 radians), strictly less
/// than a quarter turn so the view direction never aligns with the up axis.
pub const MAX_PITCH: i64 = 96390;

/// An orbit camera in spherical form. The eye position is derived:
/// `eye = center + radius * (cos(pitch)sin(yaw), sin(pitch), cos(pitch)cos(yaw))`.
#[derive(Clone, Copy, PartialEq, Eq, Structural, Debug)]
pub struct Camera {
    pub center: Vec3Fx,
    pub up: Vec3Fx,
    pub radius: i64,
    pub yaw: i64,
    pub pitch: i64,
}

impl Camera {
    /// Well-formedness: the distance floor holds, the yaw is reduced into one
    /// turn and the pitch sits inside its clamp range.
    pub open spec fn wf(self) -> bool {
        &&& self.radius >= MIN_RADIUS
        &&& 0 <= self.yaw < FX_TAU
        &&& -MAX_PITCH <= self.pitch <= MAX_PITCH
    }

    /// The spherical state a new camera derives from an eye/center/up triple.
    pub open spec fn spec_new(eye: Vec3Fx, center: Vec3Fx, up: Vec3Fx) -> Camera {
        let offset = eye.spec_sub(center);
        let d = offset.spec_norm();
        let radius = if d < MIN_RADIUS {
            MIN_RADIUS as int
        } else {
            d
        };
        let horiz = spec_v3(offset.x as int, 0, offset.z as int).spec_norm();
        let yaw = spec_fx_atan2(offset.x as int, offset.z as int) % (FX_TAU as int);
        let pitch = spec_clamp(
            spec_fx_atan2(offset.y as int, horiz),
            -MAX_PITCH as int,
            MAX_PITCH as int,
        );
        Camera {
            center,
            up,
            radius: radius as i64,
            yaw: yaw as i64,
            pitch: pitch as i64,
        }
    }

    /// Builds the camera from an eye position, a look-at center and an up
    /// vector, deriving distance, yaw and pitch from the eye-center offset.
    pub fn new(eye: Vec3Fx, center: Vec3Fx, up: Vec3Fx) -> (cam: Camera)
        ensures
            cam == Camera::spec_new(eye, center, up),
            cam.wf(),
            cam.center == center,
            cam.up == up,
    {
        let offset: Vec3Fx = eye.sub_v(center);
        let d: i64 = offset.norm_v();
        let radius: i64 = if d < MIN_RADIUS {
            MIN_RADIUS
        } else {
            d
        };
        let horiz: i64 = Vec3Fx::new(offset.x, 0, offset.z).norm_v();
        let yaw: i64 = emod_i128(fx_atan2(offset.x, offset.z) as i128, FX_TAU);
        let pitch: i64 = fx_clamp(fx_atan2(offset.y, horiz), -MAX_PITCH, MAX_PITCH);
        Camera { center, up, radius, yaw, pitch }
    }

    /// The state after an orbit: yaw advances (wrapped into one turn), pitch
    /// advances (clamped), and center, up and radius are untouched.
    pub open spec fn spec_orbit(self, yaw_delta: int, pitch_delta: int) -> Camera {
        Camera {
            yaw: ((self.yaw + yaw_delta) % (FX_TAU as int)) as i64,
            pitch: spec_clamp(
                spec_fx_add(self.pitch as int, pitch_delta),
                -MAX_PITCH as int,
                MAX_PITCH as int,
            ) as i64,
            ..self
        }
    }

    /// Rotates the eye about the center: `yaw_delta` about the world up axis
    /// and `pitch_delta` above the horizon. The eye-center distance is
    /// preserved exactly.
    pub fn orbit(&mut self, yaw_delta: i64, pitch_delta: i64)
        ensures
            *final(self) == old(self).spec_orbit(yaw_delta as int, pitch_delta as int),
            final(self).radius == old(self).radius,
            final(self).center == old(self).center,
            old(self).wf() ==> final(self).wf(),
    {
        self.yaw = emod_i128(self.yaw as i128 + yaw_delta as i128, FX_TAU);
        self.pitch = fx_clamp(fx_add(self.pitch, pitch_delta), -MAX_PITCH, MAX_PITCH);
    }

    /// The state after a zoom: the radius shrinks by `delta` (positive
    /// `delta` approaches the center) but never below the minimum floor.
    pub open spec fn spec_zoom(self, delta: int) -> Camera {
        let shrunk = spec_fx_sub(self.radius as int, delta);
        Camera {
            radius: (if shrunk < MIN_RADIUS {
                MIN_RADIUS as int
            } else {
                shrunk
            }) as i64,
            ..self
        }
    }

    /// Moves the eye along the view axis: positive `delta` approaches the
    /// center, and the eye stops at the minimum-distance floor rather than
    /// crossing the center.
    pub fn zoom(&mut self, delta: i64)
        ensures
            *final(self) == old(self).spec_zoom(delta as int),
            final(self).radius >= MIN_RADIUS,
            final(self).center == old(self).center,
            old(self).wf() ==> final(self).wf(),
    {
        let shrunk: i64 = crate::fixed::fx_sub(self.radius, delta);
        self.radius = if shrunk < MIN_RADIUS {
            MIN_RADIUS
        } else {
            shrunk
        };
    }

    /// The state after a rigid pan: the center translates and the derived eye
    /// translates with it, since radius, yaw and pitch are untouched.
    pub open spec fn spec_move_center(self, delta: Vec3Fx) -> Camera {
        Camera { center: self.center.spec_add(delta), ..self }
    }

    /// Translates center and eye together by `delta` (a rigid pan: the
    /// eye-center offset is preserved).
    pub fn move_center(&mut self, delta: Vec3Fx)
        ensures
            *final(self) == old(self).spec_move_center(delta),
            final(self).radius == old(self).radius,
            final(self).yaw == old(self).yaw,
            final(self).pitch == old(self).pitch,
            old(self).wf() ==> final(self).wf(),
    {
        self.center = self.center.add_v(delta);
    }

    /// Retargets the center to the current world position of the object at
    /// `index`, keeping the eye-center offset (radius, yaw, pitch) unchanged.
    pub fn move_to_next_planet(&mut self, positions: &Vec<Vec3Fx>, index: usize)
        requires
            index < positions@.len(),
        ensures
            final(self).center == positions@[index as int],
            final(self).radius == old(self).radius,
            final(self).yaw == old(self).yaw,
            final(self).pitch == old(self).pitch,
            final(self).up == old(self).up,
            old(self).wf() ==> final(self).wf(),
    {
        self.center = positions[index];
    }

    /// The derived eye position.
    pub open spec fn spec_eye(self) -> Vec3Fx {
        let cp = spec_fx_cos(self.pitch as int);
        let sp = spec_fx_sin(self.pitch as int);
        let sy = spec_fx_sin(self.yaw as int);
        let cy = spec_fx_cos(self.yaw as int);
        let dir = spec_v3(spec_fx_mul(cp, sy), sp, spec_fx_mul(cp, cy));
        self.center.spec_add(dir.spec_scale(self.radius as int))
    }

    /// Computes the eye position from the spherical state.
    pub fn eye(&self) -> (r: Vec3Fx)
        ensures
            r == self.spec_eye(),
    {
        let cp: i64 = fx_cos(self.pitch);
        let sp: i64 = fx_sin(self.pitch);
        let sy: i64 = fx_sin(self.yaw);
        let cy: i64 = fx_cos(self.yaw);
        let dir: Vec3Fx = Vec3Fx::new(fx_mul(cp, sy), sp, fx_mul(cp, cy));
        self.center.add_v(dir.scale_v(self.radius))
    }
}

/// Zoom monotonicity: a positive zoom strictly decreases the eye-center
/// distance while it sits above the minimum floor; once the floor is reached
/// further zooms leave the distance unchanged, and the distance never drops
/// below the floor.
pub proof fn lemma_zoom_monotonic(cam: Camera, delta: int)
    requires
        cam.wf(),
        delta > 0,
    ensures
        cam.spec_zoom(delta).radius >= MIN_RADIUS,
        cam.radius > MIN_RADIUS ==> cam.spec_zoom(delta).radius < cam.radius,
        cam.radius == MIN_RADIUS ==> cam.spec_zoom(delta).radius == cam.radius,
{
}

/// Orbit distance invariance, one step: an orbit never changes the
/// eye-center distance.
pub proof fn lemma_orbit_distance_invariant(cam: Camera, yaw_delta: int, pitch_delta: int)
    ensures
        cam.spec_orbit(yaw_delta, pitch_delta).radius == cam.radius,
        cam.spec_orbit(yaw_delta, pitch_delta).center == cam.center,
{
}

/// The camera state after a whole sequence of orbit calls.
pub open spec fn spec_orbit_seq(cam: Camera, deltas: Seq<(i64, i64)>) -> Camera
    decreases deltas.len(),
{
    if deltas.len() == 0 {
        cam
    } else {
        spec_orbit_seq(
            cam.spec_orbit(deltas[0].0 as int, deltas[0].1 as int),
            deltas.subrange(1, deltas.len() as int),
        )
    }
}

/// Orbit distance invariance: any sequence of orbit calls leaves the
/// eye-center distance (and the center itself) unchanged.
pub proof fn lemma_orbit_sequence_distance_invariant(cam: Camera, deltas: Seq<(i64, i64)>)
    ensures
        spec_orbit_seq(cam, deltas).radius == cam.radius,
        spec_orbit_seq(cam, deltas).center == cam.center,
    decreases deltas.len(),
{
    if deltas.len() > 0 {
        lemma_orbit_sequence_distance_invariant(
            cam.spec_orbit(deltas[0].0 as int, deltas[0].1 as int),
            deltas.subrange(1, deltas.len() as int),
        );
    }
}

} // verus!
