//! The light-transport protocol: the capability contracts a concrete
//! material strategy implements, and the default compositions layered over
//! them.
//!
//! The importance-weight arithmetic of `reflect_predetermined` is fixed here
//! once, as a default method, so every strategy inherits the same verified
//! multiplier; a strategy supplies only its reflectance evaluation and its
//! direction sampling.

use vstd::prelude::*;
use vstd::arithmetic::mul::lemma_mul_upper_bound;
use crate::fixed::{Fx, SCALE, mag, mul_fx, div_fx};
use crate::vec3::{Vec3, v3, t_dot};
use crate::incident::{
    Incident, ProcessedIncident, BRDFIncident, RefractIncident,
    incident_wf, scene_vec, SCENE_CAP,
};

verus! {

/// The path-contribution multiplier of a reflection sample: the reflectance
/// scaled by the projection of the outgoing direction on the normal, divided
/// by the sampling density — except that a density of exactly zero yields the
/// neutral vector (one per channel) instead of a division, a deliberate
/// policy to keep degenerate samples from poisoning accumulated throughput.
pub open spec fn multiplier_spec(f_r: Vec3, w_r: Vec3, normal: Vec3, pdf: Fx) -> (int, int, int) {
    if pdf.raw == 0 {
        (SCALE as int, SCALE as int, SCALE as int)
    } else {
        let d = t_dot(v3(w_r), v3(normal));
        (
            div_fx(mul_fx(d, v3(f_r).0), pdf.raw as int),
            div_fx(mul_fx(d, v3(f_r).1), pdf.raw as int),
            div_fx(mul_fx(d, v3(f_r).2), pdf.raw as int),
        )
    }
}

/// Round-trip law of the reflection protocol: a composed `reflect` draw and
/// a manual `sample_reflected` plus `reflect_predetermined` composition agree
/// whenever the strategy hands back the same reflectance, direction and
/// density for the same incident — the multiplier, and with it the whole
/// reflection record, is a function of those values and the surface normal
/// alone. (Whether a strategy repeats its draws for a repeated seed is the
/// strategy's own promise; this layer fixes everything downstream of it.)
pub proof fn lemma_reflect_round_trip(a: BRDFIncident, b: BRDFIncident, normal: Vec3)
    requires
        a.f_r == b.f_r,
        a.w_r == b.w_r,
        a.pdf == b.pdf,
        v3(a.multiplier) == multiplier_spec(a.f_r, a.w_r, normal, a.pdf),
        v3(b.multiplier) == multiplier_spec(b.f_r, b.w_r, normal, b.pdf),
    ensures
        a == b,
{
    assert(a.multiplier.x.raw == b.multiplier.x.raw);
    assert(a.multiplier.y.raw == b.multiplier.y.raw);
    assert(a.multiplier.z.raw == b.multiplier.z.raw);
}

/// The interaction dispatch a ray-traceable object calls after a hit. It has
/// no algorithm of its own: a concrete strategy decides how an incident
/// becomes a processed incident, internally sampling a direction in
/// `interact`, or adopting an externally chosen direction and density in
/// `interact_predetermined` (which must stay consistent with what `interact`
/// would produce for that same direction and density).
pub trait Material {
    fn interact(&self, incident: Incident, seed: Fx) -> ProcessedIncident;

    fn interact_predetermined(
        &self,
        incident: Incident,
        w_r: Vec3,
        pdf: Fx,
        seed: Fx,
    ) -> ProcessedIncident;

    /// Strategy hint handed through to the renderer; its meaning is owned by
    /// the strategy.
    fn focus(&self) -> bool;
}

/// Reflection sampling over a bidirectional reflectance distribution. A
/// strategy supplies `f_r` and `sample_reflected`; the compositions are
/// provided and verified here once.
pub trait BRDFReflector {
    /// Evaluates the reflectance for an incoming/outgoing direction pair.
    /// Reflectances are scene-level values.
    fn f_r(
        &self,
        coords: Vec3,
        w_i: Vec3,
        w_r: Vec3,
        normal: Vec3,
        seed: Fx,
    ) -> (r: Vec3)
        ensures
            scene_vec(r),
    ;

    /// Draws an outgoing direction and its sampling density under the
    /// strategy's importance-sampling scheme. Densities are non-negative
    /// scene-level values.
    fn sample_reflected(
        &self,
        coords: Vec3,
        w_i: Vec3,
        normal: Vec3,
        seed: Fx,
    ) -> (r: (Vec3, Fx))
        ensures
            scene_vec(r.0),
            0 <= r.1.raw <= SCENE_CAP,
    ;

    /// Evaluates the reflectance at an already-chosen outgoing direction and
    /// computes the path-contribution multiplier for it. A negative
    /// multiplier channel signals a strategy bug; it is observable through
    /// [`BRDFIncident::consistent`] rather than reported here.
    fn reflect_predetermined(
        &self,
        incident: &Incident,
        w_r: Vec3,
        pdf: Fx,
        seed: Fx,
    ) -> (r: BRDFIncident)
        requires
            incident_wf(*incident),
            scene_vec(w_r),
            0 <= pdf.raw <= SCENE_CAP,
        ensures
            r.w_r == w_r,
            r.pdf == pdf,
            scene_vec(r.f_r),
            v3(r.multiplier) == multiplier_spec(r.f_r, w_r, incident.normal, pdf),
    {
        let coords = incident.coords();
        let w_i = incident.w_i();
        let normal = incident.normal();

        let f_r = self.f_r(coords, w_i, w_r, normal, seed);

        let multiplier = if pdf.raw == 0 {
            Vec3::new(Fx::one(), Fx::one(), Fx::one())
        } else {
            let d = w_r.dot(normal);
            proof {
                lemma_mul_upper_bound(mag(v3(w_r).0), SCENE_CAP as int, mag(v3(normal).0), SCENE_CAP as int);
                lemma_mul_upper_bound(mag(v3(w_r).1), SCENE_CAP as int, mag(v3(normal).1), SCENE_CAP as int);
                lemma_mul_upper_bound(mag(v3(w_r).2), SCENE_CAP as int, mag(v3(normal).2), SCENE_CAP as int);
            }
            let num = f_r.scale(d);
            proof {
                lemma_mul_upper_bound(mag(d.raw as int), 300_000_000_000_000int, mag(v3(f_r).0), SCENE_CAP as int);
                lemma_mul_upper_bound(mag(d.raw as int), 300_000_000_000_000int, mag(v3(f_r).1), SCENE_CAP as int);
                lemma_mul_upper_bound(mag(d.raw as int), 300_000_000_000_000int, mag(v3(f_r).2), SCENE_CAP as int);
            }
            Vec3::new(num.x.over(pdf), num.y.over(pdf), num.z.over(pdf))
        };

        BRDFIncident { f_r, w_r, pdf, multiplier }
    }

    /// The default, fully internal sampling path: draw a direction and its
    /// density, then weigh it. Observably the same as drawing with
    /// `sample_reflected` and handing the pair to `reflect_predetermined`.
    fn reflect(&self, incident: &Incident, seed: Fx) -> (r: BRDFIncident)
        requires
            incident_wf(*incident),
        ensures
            scene_vec(r.w_r),
            0 <= r.pdf.raw <= SCENE_CAP,
            scene_vec(r.f_r),
            v3(r.multiplier) == multiplier_spec(r.f_r, r.w_r, incident.normal, r.pdf),
    {
        let coords = incident.coords();
        let w_i = incident.w_i();
        let normal = incident.normal();

        let (w_r, pdf) = self.sample_reflected(coords, w_i, normal, seed);

        self.reflect_predetermined(incident, w_r, pdf, seed)
    }
}

/// Refraction sampling. The refraction law itself (indices of refraction,
/// total internal reflection) is the concrete strategy's responsibility;
/// no weight is computed at this layer.
pub trait Refractor {
    /// Draws a transmitted direction; `inside` says whether the incoming ray
    /// originates inside the refracting medium.
    fn sample_refracted(
        &self,
        coords: Vec3,
        w_i: Vec3,
        normal: Vec3,
        inside: bool,
        seed: Fx,
    ) -> (r: Vec3)
        ensures
            scene_vec(r),
    ;

    /// Wraps one refraction draw into the standard per-hit result shape.
    fn refract(&self, incident: &Incident, seed: Fx) -> (r: RefractIncident)
        ensures
            scene_vec(r.w_r),
    {
        let coords = incident.coords();
        let w_i = incident.w_i();
        let normal = incident.normal();
        let inside = incident.inside();

        let w_r = self.sample_refracted(coords, w_i, normal, inside, seed);

        RefractIncident { w_r }
    }
}

} // verus!
