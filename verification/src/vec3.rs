//! Three-component vectors over the fixed-point scalar.
//!
//! Spec-level arithmetic works on integer triples (the raw components), so a
//! contract can state a whole vector computation as one expression.

use vstd::prelude::*;
use vstd::arithmetic::mul::lemma_mul_upper_bound;
use crate::fixed::{Fx, mag, mul_fx, SCALE, MUL_LEFT_CAP, MUL_RIGHT_CAP, ADD_CAP};

verus! {

#[derive(Clone, Copy, PartialEq, Eq, Structural, Debug)]
pub struct Vec3 {
    pub x: Fx,
    pub y: Fx,
    pub z: Fx,
}

/// The raw components of a vector, as an integer triple.
pub open spec fn v3(v: Vec3) -> (int, int, int) {
    (v.x.raw as int, v.y.raw as int, v.z.raw as int)
}

pub open spec fn t_add(a: (int, int, int), b: (int, int, int)) -> (int, int, int) {
    (a.0 + b.0, a.1 + b.1, a.2 + b.2)
}

pub open spec fn t_sub(a: (int, int, int), b: (int, int, int)) -> (int, int, int) {
    (a.0 - b.0, a.1 - b.1, a.2 - b.2)
}

pub open spec fn t_scale(s: int, a: (int, int, int)) -> (int, int, int) {
    (mul_fx(s, a.0), mul_fx(s, a.1), mul_fx(s, a.2))
}

pub open spec fn t_dot(a: (int, int, int), b: (int, int, int)) -> int {
    mul_fx(a.0, b.0) + mul_fx(a.1, b.1) + mul_fx(a.2, b.2)
}

pub open spec fn t_cross(a: (int, int, int), b: (int, int, int)) -> (int, int, int) {
    (
        mul_fx(a.1, b.2) - mul_fx(a.2, b.1),
        mul_fx(a.2, b.0) - mul_fx(a.0, b.2),
        mul_fx(a.0, b.1) - mul_fx(a.1, b.0),
    )
}

/// Every component of `a` has magnitude at most `b`.
pub open spec fn t_mag_le(a: (int, int, int), b: int) -> bool {
    mag(a.0) <= b && mag(a.1) <= b && mag(a.2) <= b
}

impl Vec3 {
    pub fn new(x: Fx, y: Fx, z: Fx) -> (r: Vec3)
        ensures
            r == (Vec3 { x, y, z }),
    {
        Vec3 { x, y, z }
    }

    pub fn plus(self, o: Vec3) -> (r: Vec3)
        requires
            t_mag_le(v3(self), ADD_CAP as int),
            t_mag_le(v3(o), ADD_CAP as int),
        ensures
            v3(r) == t_add(v3(self), v3(o)),
    {
        Vec3 { x: self.x.plus(o.x), y: self.y.plus(o.y), z: self.z.plus(o.z) }
    }

    pub fn minus(self, o: Vec3) -> (r: Vec3)
        requires
            t_mag_le(v3(self), ADD_CAP as int),
            t_mag_le(v3(o), ADD_CAP as int),
        ensures
            v3(r) == t_sub(v3(self), v3(o)),
    {
        Vec3 { x: self.x.minus(o.x), y: self.y.minus(o.y), z: self.z.minus(o.z) }
    }

    /// Adds `e` to every component.
    pub fn shift(self, e: Fx) -> (r: Vec3)
        requires
            t_mag_le(v3(self), ADD_CAP as int),
            mag(e.raw as int) <= ADD_CAP as int,
        ensures
            v3(r) == (v3(self).0 + e.raw as int, v3(self).1 + e.raw as int, v3(self).2 + e.raw as int),
    {
        Vec3 { x: self.x.plus(e), y: self.y.plus(e), z: self.z.plus(e) }
    }

    /// Scales every component by `s`.
    pub fn scale(self, s: Fx) -> (r: Vec3)
        requires
            mag(s.raw as int) <= MUL_LEFT_CAP as int,
            t_mag_le(v3(self), MUL_RIGHT_CAP as int),
        ensures
            v3(r) == t_scale(s.raw as int, v3(self)),
            mag(v3(r).0) * (SCALE as int) <= mag(s.raw as int) * mag(v3(self).0),
            mag(v3(r).1) * (SCALE as int) <= mag(s.raw as int) * mag(v3(self).1),
            mag(v3(r).2) * (SCALE as int) <= mag(s.raw as int) * mag(v3(self).2),
    {
        proof {
            crate::fixed::lemma_mul_fx_le(s.raw as int, self.x.raw as int, mag(s.raw as int), MUL_RIGHT_CAP as int);
            crate::fixed::lemma_mul_fx_le(s.raw as int, self.y.raw as int, mag(s.raw as int), MUL_RIGHT_CAP as int);
            crate::fixed::lemma_mul_fx_le(s.raw as int, self.z.raw as int, mag(s.raw as int), MUL_RIGHT_CAP as int);
        }
        Vec3 { x: s.times(self.x), y: s.times(self.y), z: s.times(self.z) }
    }

    /// Fixed-point dot product. The vector with the larger components must
    /// stand on the left.
    pub fn dot(self, o: Vec3) -> (r: Fx)
        requires
            t_mag_le(v3(self), MUL_LEFT_CAP as int),
            t_mag_le(v3(o), MUL_RIGHT_CAP as int),
        ensures
            r.raw as int == t_dot(v3(self), v3(o)),
            mag(r.raw as int) * (SCALE as int)
                <= mag(v3(self).0) * mag(v3(o).0)
                    + mag(v3(self).1) * mag(v3(o).1)
                    + mag(v3(self).2) * mag(v3(o).2),
    {
        proof {
            lemma_mul_upper_bound(mag(self.x.raw as int), MUL_LEFT_CAP as int, mag(o.x.raw as int), MUL_RIGHT_CAP as int);
            lemma_mul_upper_bound(mag(self.y.raw as int), MUL_LEFT_CAP as int, mag(o.y.raw as int), MUL_RIGHT_CAP as int);
            lemma_mul_upper_bound(mag(self.z.raw as int), MUL_LEFT_CAP as int, mag(o.z.raw as int), MUL_RIGHT_CAP as int);
        }
        let tx = self.x.times(o.x);
        let ty = self.y.times(o.y);
        let tz = self.z.times(o.z);
        Fx { raw: tx.raw + ty.raw + tz.raw }
    }

    /// Fixed-point cross product. The vector with the larger components must
    /// stand on the left.
    pub fn cross(self, o: Vec3) -> (r: Vec3)
        requires
            t_mag_le(v3(self), MUL_LEFT_CAP as int),
            t_mag_le(v3(o), MUL_RIGHT_CAP as int),
        ensures
            v3(r) == t_cross(v3(self), v3(o)),
            mag(v3(r).0) * (SCALE as int)
                <= mag(v3(self).1) * mag(v3(o).2) + mag(v3(self).2) * mag(v3(o).1),
            mag(v3(r).1) * (SCALE as int)
                <= mag(v3(self).2) * mag(v3(o).0) + mag(v3(self).0) * mag(v3(o).2),
            mag(v3(r).2) * (SCALE as int)
                <= mag(v3(self).0) * mag(v3(o).1) + mag(v3(self).1) * mag(v3(o).0),
    {
        proof {
            lemma_mul_upper_bound(mag(self.x.raw as int), MUL_LEFT_CAP as int, mag(o.x.raw as int), MUL_RIGHT_CAP as int);
            lemma_mul_upper_bound(mag(self.x.raw as int), MUL_LEFT_CAP as int, mag(o.y.raw as int), MUL_RIGHT_CAP as int);
            lemma_mul_upper_bound(mag(self.x.raw as int), MUL_LEFT_CAP as int, mag(o.z.raw as int), MUL_RIGHT_CAP as int);
            lemma_mul_upper_bound(mag(self.y.raw as int), MUL_LEFT_CAP as int, mag(o.x.raw as int), MUL_RIGHT_CAP as int);
            lemma_mul_upper_bound(mag(self.y.raw as int), MUL_LEFT_CAP as int, mag(o.y.raw as int), MUL_RIGHT_CAP as int);
            lemma_mul_upper_bound(mag(self.y.raw as int), MUL_LEFT_CAP as int, mag(o.z.raw as int), MUL_RIGHT_CAP as int);
            lemma_mul_upper_bound(mag(self.z.raw as int), MUL_LEFT_CAP as int, mag(o.x.raw as int), MUL_RIGHT_CAP as int);
            lemma_mul_upper_bound(mag(self.z.raw as int), MUL_LEFT_CAP as int, mag(o.y.raw as int), MUL_RIGHT_CAP as int);
            lemma_mul_upper_bound(mag(self.z.raw as int), MUL_LEFT_CAP as int, mag(o.z.raw as int), MUL_RIGHT_CAP as int);
        }
        let rx = self.y.times(o.z).minus(self.z.times(o.y));
        let ry = self.z.times(o.x).minus(self.x.times(o.z));
        let rz = self.x.times(o.y).minus(self.y.times(o.x));
        Vec3 { x: rx, y: ry, z: rz }
    }

    /// Componentwise minimum.
    pub fn comp_min(self, o: Vec3) -> (r: Vec3)
        ensures
            r.x.raw == if self.x.raw <= o.x.raw { self.x.raw } else { o.x.raw },
            r.y.raw == if self.y.raw <= o.y.raw { self.y.raw } else { o.y.raw },
            r.z.raw == if self.z.raw <= o.z.raw { self.z.raw } else { o.z.raw },
            v3(r).0 <= v3(self).0 && v3(r).0 <= v3(o).0,
            v3(r).1 <= v3(self).1 && v3(r).1 <= v3(o).1,
            v3(r).2 <= v3(self).2 && v3(r).2 <= v3(o).2,
    {
        Vec3 { x: self.x.min(o.x), y: self.y.min(o.y), z: self.z.min(o.z) }
    }

    /// Componentwise maximum.
    pub fn comp_max(self, o: Vec3) -> (r: Vec3)
        ensures
            r.x.raw == if self.x.raw >= o.x.raw { self.x.raw } else { o.x.raw },
            r.y.raw == if self.y.raw >= o.y.raw { self.y.raw } else { o.y.raw },
            r.z.raw == if self.z.raw >= o.z.raw { self.z.raw } else { o.z.raw },
            v3(r).0 >= v3(self).0 && v3(r).0 >= v3(o).0,
            v3(r).1 >= v3(self).1 && v3(r).1 >= v3(o).1,
            v3(r).2 >= v3(self).2 && v3(r).2 >= v3(o).2,
    {
        Vec3 { x: self.x.max(o.x), y: self.y.max(o.y), z: self.z.max(o.z) }
    }
}

} // verus!
