//! The triangle primitive: exact ray hit test and area/direction sampling.
//!
//! A triangle carries its vertices together with its surface area and its
//! unit-length surface normal, which the scene builder measures when the
//! geometry is loaded; the hit test and the samplers are exact functions of
//! those stored values.

use vstd::prelude::*;
use vstd::arithmetic::mul::lemma_mul_upper_bound;
use crate::fixed::{Fx, SCALE, mag};
use crate::vec3::{Vec3, v3, t_add, t_sub, t_scale, t_dot, t_cross, t_mag_le};
use crate::incident::{Ray, Incident, ray_wf, incident_wf, scene_vec, seed_wf, SCENE_CAP, T_CAP, HIT_CAP};

verus! {

#[derive(Clone, Copy, PartialEq, Eq, Structural, Debug)]
pub struct Triangle {
    pub v0: Vec3,
    pub v1: Vec3,
    pub v2: Vec3,
    pub area: Fx,
    pub normal: Vec3,
}

/// A non-degenerate triangle with scene-level vertices, a positive area no
/// larger than the scene cap, and a scene-level normal.
pub open spec fn tri_wf(t: Triangle) -> bool {
    scene_vec(t.v0) && scene_vec(t.v1) && scene_vec(t.v2) && scene_vec(t.normal)
        && 0 < t.area.raw <= SCENE_CAP
}

/// Denominator of the plane intersection: the incoming direction against the
/// triangle normal. Zero means the ray runs parallel to the plane.
pub open spec fn plane_denom(t: Triangle, r: Ray) -> int {
    t_dot(v3(r.direction), v3(t.normal))
}

/// Numerator of the plane intersection: the offset from the ray origin to the
/// plane, measured along the normal.
pub open spec fn plane_num(t: Triangle, r: Ray) -> int {
    t_dot(t_sub(v3(t.v0), v3(r.origin)), v3(t.normal))
}

/// The hit parameter along the ray (meaningful only when the denominator is
/// not zero).
pub open spec fn hit_param(t: Triangle, r: Ray) -> int {
    crate::fixed::div_fx(plane_num(t, r), plane_denom(t, r))
}

/// The point the ray reaches at the hit parameter.
pub open spec fn hit_point(t: Triangle, r: Ray) -> (int, int, int) {
    t_add(v3(r.origin), t_scale(hit_param(t, r), v3(r.direction)))
}

/// Signed orientation of the hit point against one triangle edge, projected
/// on the normal.
pub open spec fn edge_sign(p: (int, int, int), a: (int, int, int), b: (int, int, int), n: (int, int, int)) -> int {
    t_dot(t_cross(t_sub(p, a), t_sub(b, a)), n)
}

/// The hit point lies inside the triangle: the three edge orientations agree
/// in sign (either winding is accepted; boundary grazing counts as inside).
pub open spec fn hit_inside(t: Triangle, r: Ray) -> bool {
    let p = hit_point(t, r);
    let s0 = edge_sign(p, v3(t.v0), v3(t.v1), v3(t.normal));
    let s1 = edge_sign(p, v3(t.v1), v3(t.v2), v3(t.normal));
    let s2 = edge_sign(p, v3(t.v2), v3(t.v0), v3(t.normal));
    (s0 >= 0 && s1 >= 0 && s2 >= 0) || (s0 <= 0 && s1 <= 0 && s2 <= 0)
}

/// The exact hit test succeeds: the ray is not parallel to the plane, the
/// plane is reached at a parameter that is positive and within the horizon,
/// and the crossing point lies inside the triangle.
pub open spec fn tri_hits(t: Triangle, r: Ray) -> bool {
    plane_denom(t, r) != 0
        && 0 < hit_param(t, r) <= T_CAP as int
        && hit_inside(t, r)
}

pub open spec fn v3_of(p: (int, int, int)) -> Vec3 {
    Vec3 { x: Fx { raw: p.0 as i128 }, y: Fx { raw: p.1 as i128 }, z: Fx { raw: p.2 as i128 } }
}

/// The reported surface normal faces against the incoming direction: the
/// stored normal when the front side is struck, its negation on the back side.
pub open spec fn reported_normal(t: Triangle, r: Ray) -> (int, int, int) {
    if plane_denom(t, r) < 0 {
        v3(t.normal)
    } else {
        (-v3(t.normal).0, -v3(t.normal).1, -v3(t.normal).2)
    }
}

/// The incident a successful hit test reports.
pub open spec fn hit_incident(t: Triangle, r: Ray) -> Incident {
    Incident {
        coords: v3_of(hit_point(t, r)),
        w_i: r.direction,
        normal: v3_of(reported_normal(t, r)),
        distance: Fx { raw: hit_param(t, r) as i128 },
        inside: plane_denom(t, r) > 0,
    }
}

fn edge_sign_exec(p: Vec3, a: Vec3, b: Vec3, n: Vec3) -> (r: Fx)
    requires
        t_mag_le(v3(p), HIT_CAP as int),
        scene_vec(a),
        scene_vec(b),
        scene_vec(n),
    ensures
        r.raw as int == edge_sign(v3(p), v3(a), v3(b), v3(n)),
{
    let pv = p.minus(a);
    let e = b.minus(a);
    let c = pv.cross(e);
    proof {
        lemma_mul_upper_bound(mag(v3(pv).0), HIT_CAP as int + SCENE_CAP as int, mag(v3(e).0), 2 * SCENE_CAP as int);
        lemma_mul_upper_bound(mag(v3(pv).0), HIT_CAP as int + SCENE_CAP as int, mag(v3(e).1), 2 * SCENE_CAP as int);
        lemma_mul_upper_bound(mag(v3(pv).0), HIT_CAP as int + SCENE_CAP as int, mag(v3(e).2), 2 * SCENE_CAP as int);
        lemma_mul_upper_bound(mag(v3(pv).1), HIT_CAP as int + SCENE_CAP as int, mag(v3(e).0), 2 * SCENE_CAP as int);
        lemma_mul_upper_bound(mag(v3(pv).1), HIT_CAP as int + SCENE_CAP as int, mag(v3(e).2), 2 * SCENE_CAP as int);
        lemma_mul_upper_bound(mag(v3(pv).2), HIT_CAP as int + SCENE_CAP as int, mag(v3(e).0), 2 * SCENE_CAP as int);
        lemma_mul_upper_bound(mag(v3(pv).2), HIT_CAP as int + SCENE_CAP as int, mag(v3(e).1), 2 * SCENE_CAP as int);
    }
    c.dot(n)
}

impl Triangle {
    /// Builds a triangle from its measured attributes. The caller supplies
    /// the area and the unit normal that belong to the vertices; the sampling
    /// and intersection contracts are exact relative to these stored values.
    pub fn new(v0: Vec3, v1: Vec3, v2: Vec3, area: Fx, normal: Vec3) -> (r: Triangle)
        requires
            scene_vec(v0),
            scene_vec(v1),
            scene_vec(v2),
            scene_vec(normal),
            0 < area.raw <= SCENE_CAP,
        ensures
            r == (Triangle { v0, v1, v2, area, normal }),
            tri_wf(r),
    {
        Triangle { v0, v1, v2, area, normal }
    }

    pub fn vertices(&self) -> (r: (Vec3, Vec3, Vec3))
        ensures
            r == (self.v0, self.v1, self.v2),
    {
        (self.v0, self.v1, self.v2)
    }

    pub fn area(&self) -> (r: Fx)
        ensures
            r == self.area,
    {
        self.area
    }

    pub fn normal(&self) -> (r: Vec3)
        ensures
            r == self.normal,
    {
        self.normal
    }

    /// Exact ray hit test: intersect the ray with the triangle plane, then
    /// accept the crossing point if it lies on the triangle and at a positive
    /// parameter within the horizon.
    pub fn hit(&self, ray: &Ray) -> (r: Option<Incident>)
        requires
            tri_wf(*self),
            ray_wf(*ray),
        ensures
            tri_hits(*self, *ray) ==> r == Some(hit_incident(*self, *ray)),
            !tri_hits(*self, *ray) ==> r is None,
            r matches Some(inc) ==> incident_wf(inc),
    {
        let o = ray.origin;
        let d = ray.direction;
        let den = d.dot(self.normal);
        if den.raw == 0 {
            return None;
        }
        let off = self.v0.minus(o);
        let num = off.dot(self.normal);
        proof {
            lemma_mul_upper_bound(mag(v3(d).0), SCENE_CAP as int, mag(v3(self.normal).0), SCENE_CAP as int);
            lemma_mul_upper_bound(mag(v3(d).1), SCENE_CAP as int, mag(v3(self.normal).1), SCENE_CAP as int);
            lemma_mul_upper_bound(mag(v3(d).2), SCENE_CAP as int, mag(v3(self.normal).2), SCENE_CAP as int);
            lemma_mul_upper_bound(mag(v3(off).0), 2 * SCENE_CAP as int, mag(v3(self.normal).0), SCENE_CAP as int);
            lemma_mul_upper_bound(mag(v3(off).1), 2 * SCENE_CAP as int, mag(v3(self.normal).1), SCENE_CAP as int);
            lemma_mul_upper_bound(mag(v3(off).2), 2 * SCENE_CAP as int, mag(v3(self.normal).2), SCENE_CAP as int);
        }
        let t = num.over(den);
        if t.raw <= 0 || t.raw > T_CAP {
            return None;
        }
        let scaled = d.scale(t);
        proof {
            lemma_mul_upper_bound(mag(t.raw as int), T_CAP as int, mag(v3(d).0), SCENE_CAP as int);
            lemma_mul_upper_bound(mag(t.raw as int), T_CAP as int, mag(v3(d).1), SCENE_CAP as int);
            lemma_mul_upper_bound(mag(t.raw as int), T_CAP as int, mag(v3(d).2), SCENE_CAP as int);
        }
        let p = o.plus(scaled);
        let s0 = edge_sign_exec(p, self.v0, self.v1, self.normal);
        let s1 = edge_sign_exec(p, self.v1, self.v2, self.normal);
        let s2 = edge_sign_exec(p, self.v2, self.v0, self.normal);
        let all_pos = s0.raw >= 0 && s1.raw >= 0 && s2.raw >= 0;
        let all_neg = s0.raw <= 0 && s1.raw <= 0 && s2.raw <= 0;
        if !(all_pos || all_neg) {
            return None;
        }
        let normal = if den.raw < 0 {
            self.normal
        } else {
            Vec3 { x: self.normal.x.neg(), y: self.normal.y.neg(), z: self.normal.z.neg() }
        };
        Some(Incident { coords: p, w_i: d, normal, distance: t, inside: den.raw > 0 })
    }

    /// Draws a point uniformly on the triangle from two seeds in `[0, 1)`,
    /// folding the pair across the diagonal of the unit square so the
    /// barycentric weights stay inside the triangle. Also returns the folded
    /// barycentric pair.
    pub fn sample_location(&self, s1: Fx, s2: Fx) -> (r: (Vec3, (Fx, Fx)))
        requires
            tri_wf(*self),
            seed_wf(s1),
            seed_wf(s2),
        ensures
            v3(r.0) == sampled_point(*self, s1.raw as int, s2.raw as int),
            (r.1.0.raw as int, r.1.1.raw as int)
                == fold_seeds(s1.raw as int, s2.raw as int),
            t_mag_le(v3(r.0), HIT_CAP as int),
    {
        let (a, b) = if s1.raw + s2.raw <= SCALE {
            (s1, s2)
        } else {
            (Fx { raw: SCALE - s1.raw }, Fx { raw: SCALE - s2.raw })
        };
        let e1 = self.v1.minus(self.v0);
        let e2 = self.v2.minus(self.v0);
        proof {
            lemma_mul_upper_bound(mag(a.raw as int), SCALE as int, mag(v3(e1).0), 2 * SCENE_CAP as int);
            lemma_mul_upper_bound(mag(a.raw as int), SCALE as int, mag(v3(e1).1), 2 * SCENE_CAP as int);
            lemma_mul_upper_bound(mag(a.raw as int), SCALE as int, mag(v3(e1).2), 2 * SCENE_CAP as int);
            lemma_mul_upper_bound(mag(b.raw as int), SCALE as int, mag(v3(e2).0), 2 * SCENE_CAP as int);
            lemma_mul_upper_bound(mag(b.raw as int), SCALE as int, mag(v3(e2).1), 2 * SCENE_CAP as int);
            lemma_mul_upper_bound(mag(b.raw as int), SCALE as int, mag(v3(e2).2), 2 * SCENE_CAP as int);
        }
        let p = self.v0.plus(e1.scale(a)).plus(e2.scale(b));
        (p, (a, b))
    }

    /// Direction sample of this primitive: a collimated emitter. Every draw
    /// leaves along the stored normal, and by the usual delta-distribution
    /// convention the reported density is one.
    pub fn sample_direction(&self) -> (r: (Vec3, Fx))
        ensures
            r.0 == self.normal,
            r.1.raw == SCALE,
    {
        (self.normal, Fx::one())
    }
}

/// Folds a seed pair across the diagonal of the unit square: the pair is kept
/// when its sum is at most one, else reflected.
pub open spec fn fold_seeds(s1: int, s2: int) -> (int, int) {
    if s1 + s2 <= SCALE as int {
        (s1, s2)
    } else {
        (SCALE as int - s1, SCALE as int - s2)
    }
}

/// The barycentric combination `v0 + a*(v1 - v0) + b*(v2 - v0)` for the
/// folded seed pair `(a, b)`.
pub open spec fn sampled_point(t: Triangle, s1: int, s2: int) -> (int, int, int) {
    let f = fold_seeds(s1, s2);
    t_add(
        v3(t.v0),
        t_add(
            t_scale(f.0, t_sub(v3(t.v1), v3(t.v0))),
            t_scale(f.1, t_sub(v3(t.v2), v3(t.v0))),
        ),
    )
}

} // verus!
