//! Rays, hit records, and the per-query value types of the light-transport
//! protocol. All are ephemeral values: produced by one query, consumed by the
//! next call, never retained by the core.

use vstd::prelude::*;
use crate::fixed::{Fx, SCALE};
use crate::vec3::{Vec3, v3, t_mag_le};

verus! {

/// Magnitude cap on the raw components of scene-level inputs: coordinates of
/// mesh vertices and ray origins, directions, normals, reflectances, and
/// densities. One raw step is `1/SCALE` units, so this is 100 000 scene units.
pub const SCENE_CAP: i128 = 1_000_000_000;

/// Horizon for hit parameters: an intersection with parameter beyond this is
/// discarded as unreachable. In scene units this is `T_CAP / SCALE`.
pub const T_CAP: i128 = 1_000_000_000_000;

/// Magnitude cap on the raw components of a hit point: a scene-level origin
/// plus a direction scaled by a parameter within the horizon.
pub const HIT_CAP: i128 = 200_000_000_000_000_000;

/// Every component of `v` is within the scene cap.
pub open spec fn scene_vec(v: Vec3) -> bool {
    t_mag_le(v3(v), SCENE_CAP as int)
}

/// Origin plus direction; the direction need not be a unit vector, it defines
/// the parametrization used for hit distances.
#[derive(Clone, Copy, PartialEq, Eq, Structural, Debug)]
pub struct Ray {
    pub origin: Vec3,
    pub direction: Vec3,
}

pub open spec fn ray_wf(r: Ray) -> bool {
    scene_vec(r.origin) && scene_vec(r.direction)
}

impl Ray {
    pub fn new(origin: Vec3, direction: Vec3) -> (r: Ray)
        ensures
            r == (Ray { origin, direction }),
    {
        Ray { origin, direction }
    }

    pub fn origin(&self) -> (r: Vec3)
        ensures
            r == self.origin,
    {
        self.origin
    }

    pub fn direction(&self) -> (r: Vec3)
        ensures
            r == self.direction,
    {
        self.direction
    }
}

/// The record of one successful hit test: hit point, incoming direction,
/// surface normal, hit parameter, and whether the back side was struck.
#[derive(Clone, Copy, PartialEq, Eq, Structural, Debug)]
pub struct Incident {
    pub coords: Vec3,
    pub w_i: Vec3,
    pub normal: Vec3,
    pub distance: Fx,
    pub inside: bool,
}

pub open spec fn incident_wf(i: Incident) -> bool {
    t_mag_le(v3(i.coords), HIT_CAP as int)
        && scene_vec(i.w_i)
        && scene_vec(i.normal)
        && 0 < i.distance.raw <= T_CAP
}

impl Incident {
    pub fn coords(&self) -> (r: Vec3)
        ensures
            r == self.coords,
    {
        self.coords
    }

    pub fn w_i(&self) -> (r: Vec3)
        ensures
            r == self.w_i,
    {
        self.w_i
    }

    pub fn normal(&self) -> (r: Vec3)
        ensures
            r == self.normal,
    {
        self.normal
    }

    pub fn distance(&self) -> (r: Fx)
        ensures
            r == self.distance,
    {
        self.distance
    }

    pub fn inside(&self) -> (r: bool)
        ensures
            r == self.inside,
    {
        self.inside
    }
}

/// Outcome of a reflection sample: reflectance, outgoing direction, sampling
/// density, and the path-contribution multiplier.
#[derive(Clone, Copy, PartialEq, Eq, Structural, Debug)]
pub struct BRDFIncident {
    pub f_r: Vec3,
    pub w_r: Vec3,
    pub pdf: Fx,
    pub multiplier: Vec3,
}

impl BRDFIncident {
    /// Structured diagnostic for the sign-consistency check: a negative
    /// multiplier channel signals that a reflector and its sampling density
    /// disagree on sign conventions. Non-fatal; callers may log or count it.
    pub fn consistent(&self) -> (r: bool)
        ensures
            r == (self.multiplier.x.raw >= 0 && self.multiplier.y.raw >= 0
                && self.multiplier.z.raw >= 0),
    {
        self.multiplier.x.raw >= 0 && self.multiplier.y.raw >= 0 && self.multiplier.z.raw >= 0
    }
}

/// Outcome of a refraction sample: the transmitted direction. No weight is
/// carried at this layer.
#[derive(Clone, Copy, PartialEq, Eq, Structural, Debug)]
pub struct RefractIncident {
    pub w_r: Vec3,
}

/// What an integrator needs to continue a path after the material dispatch:
/// the continuation direction, the throughput multiplier, and any emission.
/// The concrete material strategy decides how to fill it.
#[derive(Clone, Copy, PartialEq, Eq, Structural, Debug)]
pub struct ProcessedIncident {
    pub w_r: Vec3,
    pub multiplier: Vec3,
    pub emission: Option<Vec3>,
}

/// An area-light sample: outgoing ray, surface normal at the sampled point,
/// and the position and direction densities.
#[derive(Clone, Copy, PartialEq, Eq, Structural, Debug)]
pub struct LightSample {
    pub ray: Ray,
    pub normal: Vec3,
    pub position_pdf: Fx,
    pub direction_pdf: Fx,
}

/// A density seed in `[0, 1)`: at least zero, strictly below one.
pub open spec fn seed_wf(s: Fx) -> bool {
    0 <= s.raw < SCALE
}

} // verus!
