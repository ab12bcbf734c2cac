//! The two-tier bounding scheme: the coarse whole-mesh box test, the
//! per-triangle broad phase over padded boxes, and the exact bounded-mesh
//! queries (nearest hit and area-weighted triangle sampling).

use vstd::prelude::*;
use vstd::arithmetic::div_mod::lemma_fundamental_div_mod;
use crate::fixed::{Fx, SCALE, mag, mul_fx, div_fx};
use crate::vec3::{Vec3, v3, t_mag_le};
use crate::incident::{Ray, Incident, ray_wf, incident_wf, scene_vec, seed_wf, SCENE_CAP};
use crate::triangle::{Triangle, tri_wf, tri_hits, hit_incident};
use crate::trimesh::{TriMesh, mesh_wf, prefix_area, total_area_of, tri_min, tri_max};

verus! {

/// Padding added on every axis of a per-triangle box: 0.1 scene units. It
/// guards the broad phase against boundary grazing, so that no true
/// intersection is lost to the slab test's rounding.
pub const BOX_PAD: i128 = 1000;

/// Tolerance of the slab acceptance comparison: one raw step (1/SCALE units).
pub const SLAB_EPS: i128 = 1;

/// Sentinel parameter standing for "beyond every finite slab crossing". All
/// finite slab parameters are far below it in magnitude.
pub const FAR_T: i128 = 1_000_000_000_000_000_000_000_000_000_000;

/// Entry parameter of the ray into one axis slab `[lo, hi]`. A zero direction
/// component is handled explicitly rather than through a signed infinity: the
/// axis constrains nothing when the origin lies inside the slab, and can
/// never be crossed when it lies outside.
pub open spec fn axis_enter(o: int, d: int, lo: int, hi: int) -> int {
    if d == 0 {
        if lo <= o && o <= hi {
            -FAR_T as int
        } else {
            FAR_T as int
        }
    } else if d > 0 {
        div_fx(lo - o, d)
    } else {
        div_fx(hi - o, d)
    }
}

/// Exit parameter of the ray out of one axis slab `[lo, hi]`.
pub open spec fn axis_exit(o: int, d: int, lo: int, hi: int) -> int {
    if d == 0 {
        if lo <= o && o <= hi {
            FAR_T as int
        } else {
            -FAR_T as int
        }
    } else if d > 0 {
        div_fx(hi - o, d)
    } else {
        div_fx(lo - o, d)
    }
}

pub open spec fn max3(a: int, b: int, c: int) -> int {
    if a >= b && a >= c { a } else if b >= c { b } else { c }
}

pub open spec fn min3(a: int, b: int, c: int) -> int {
    if a <= b && a <= c { a } else if b <= c { b } else { c }
}

/// Overall entry parameter: the latest of the three axis entries.
pub open spec fn slab_enter(r: Ray, mn: (int, int, int), mx: (int, int, int)) -> int {
    max3(
        axis_enter(v3(r.origin).0, v3(r.direction).0, mn.0, mx.0),
        axis_enter(v3(r.origin).1, v3(r.direction).1, mn.1, mx.1),
        axis_enter(v3(r.origin).2, v3(r.direction).2, mn.2, mx.2),
    )
}

/// Overall exit parameter: the earliest of the three axis exits.
pub open spec fn slab_exit(r: Ray, mn: (int, int, int), mx: (int, int, int)) -> int {
    min3(
        axis_exit(v3(r.origin).0, v3(r.direction).0, mn.0, mx.0),
        axis_exit(v3(r.origin).1, v3(r.direction).1, mn.1, mx.1),
        axis_exit(v3(r.origin).2, v3(r.direction).2, mn.2, mx.2),
    )
}

/// The slab acceptance test: the ray's line could cross the box, and the box
/// is not entirely behind the origin.
pub open spec fn slab_accept(r: Ray, mn: (int, int, int), mx: (int, int, int)) -> bool {
    slab_enter(r, mn, mx) < slab_exit(r, mn, mx) + SLAB_EPS as int && slab_exit(r, mn, mx) > 0
}

/// Box corners a slab test may be asked about: a scene-level corner plus the
/// per-triangle padding.
pub open spec fn corner_wf(c: (int, int, int)) -> bool {
    t_mag_le(c, SCENE_CAP as int + BOX_PAD as int)
}

fn axis_bounds(o: Fx, d: Fx, lo: Fx, hi: Fx) -> (r: (i128, i128))
    requires
        mag(o.raw as int) <= SCENE_CAP as int,
        mag(d.raw as int) <= SCENE_CAP as int,
        mag(lo.raw as int) <= SCENE_CAP as int + BOX_PAD as int,
        mag(hi.raw as int) <= SCENE_CAP as int + BOX_PAD as int,
    ensures
        r.0 as int == axis_enter(o.raw as int, d.raw as int, lo.raw as int, hi.raw as int),
        r.1 as int == axis_exit(o.raw as int, d.raw as int, lo.raw as int, hi.raw as int),
{
    if d.raw == 0 {
        if lo.raw <= o.raw && o.raw <= hi.raw {
            (-FAR_T, FAR_T)
        } else {
            (FAR_T, -FAR_T)
        }
    } else if d.raw > 0 {
        ((lo.minus(o)).over(d).raw, (hi.minus(o)).over(d).raw)
    } else {
        ((hi.minus(o)).over(d).raw, (lo.minus(o)).over(d).raw)
    }
}

fn slab_test(ray: &Ray, mn: Vec3, mx: Vec3) -> (r: bool)
    requires
        ray_wf(*ray),
        corner_wf(v3(mn)),
        corner_wf(v3(mx)),
    ensures
        r == slab_accept(*ray, v3(mn), v3(mx)),
{
    let o = ray.origin;
    let d = ray.direction;
    let (ex, xx) = axis_bounds(o.x, d.x, mn.x, mx.x);
    let (ey, xy) = axis_bounds(o.y, d.y, mn.y, mx.y);
    let (ez, xz) = axis_bounds(o.z, d.z, mn.z, mx.z);
    let enter = if ex >= ey && ex >= ez { ex } else if ey >= ez { ey } else { ez };
    let exit = if xx <= xy && xx <= xz { xx } else if xy <= xz { xy } else { xz };
    enter < exit + SLAB_EPS && exit > 0
}

/// An axis-aligned box tagged with an opaque identifier, as handed to the
/// broad-phase index when it is built.
#[derive(Clone, Copy, PartialEq, Eq, Structural, Debug)]
pub struct GenericBound {
    pub id: usize,
    pub min_pt: Vec3,
    pub max_pt: Vec3,
}

impl GenericBound {
    pub fn new(id: usize, min_pt: Vec3, max_pt: Vec3) -> (r: GenericBound)
        ensures
            r == (GenericBound { id, min_pt, max_pt }),
    {
        GenericBound { id, min_pt, max_pt }
    }

    pub fn get(&self) -> (r: usize)
        ensures
            r == self.id,
    {
        self.id
    }
}

/// The broad-phase spatial index over tagged boxes. A query walks every box
/// with the slab test; it over-approximates (a reported candidate's box may
/// still miss the true geometry) but never drops a box the slab test accepts.
pub struct BoundIndex {
    pub bounds: Vec<GenericBound>,
}

/// The box at position `p` passes the slab test for this ray.
pub open spec fn index_accepts(ix: BoundIndex, r: Ray, p: int) -> bool {
    slab_accept(r, v3(ix.bounds@[p].min_pt), v3(ix.bounds@[p].max_pt))
}

/// Every stored corner is within the padded scene range, and the identifier
/// space is exactly the storage positions, set once at construction.
pub open spec fn index_wf(ix: BoundIndex) -> bool {
    forall|p: int| 0 <= p < ix.bounds@.len()
        ==> corner_wf(v3(#[trigger] ix.bounds@[p].min_pt)) && corner_wf(v3(ix.bounds@[p].max_pt))
            && ix.bounds@[p].id == p
}

impl BoundIndex {
    pub fn new(bounds: Vec<GenericBound>) -> (r: BoundIndex)
        ensures
            r.bounds@ == bounds@,
    {
        BoundIndex { bounds }
    }

    /// Broad phase: the identifiers of every box the slab test accepts for
    /// this ray, in ascending storage order.
    pub fn query(&self, ray: &Ray) -> (r: Vec<usize>)
        requires
            ray_wf(*ray),
            index_wf(*self),
        ensures
            forall|j: int| 0 <= j < r@.len()
                ==> (#[trigger] r@[j]) < self.bounds@.len()
                    && index_accepts(*self, *ray, r@[j] as int),
            forall|a: int, b: int| 0 <= a < b < r@.len() ==> r@[a] < r@[b],
            forall|p: int| 0 <= p < self.bounds@.len() && (#[trigger] index_accepts(*self, *ray, p))
                ==> exists|j: int| 0 <= j < r@.len() && r@[j] == p,
    {
        let n = self.bounds.len();
        let mut out: Vec<usize> = Vec::new();
        let mut i: usize = 0;
        while i < n
            invariant
                0 <= i <= n,
                n == self.bounds@.len(),
                ray_wf(*ray),
                index_wf(*self),
                forall|j: int| 0 <= j < out@.len()
                    ==> (#[trigger] out@[j]) < i
                        && index_accepts(*self, *ray, out@[j] as int),
                forall|a: int, b: int| 0 <= a < b < out@.len() ==> out@[a] < out@[b],
                forall|p: int| 0 <= p < i && (#[trigger] index_accepts(*self, *ray, p))
                    ==> exists|j: int| 0 <= j < out@.len() && out@[j] == p,
            decreases n - i,
        {
            let b = &self.bounds[i];
            if slab_test(ray, b.min_pt, b.max_pt) {
                let ghost prev = out@;
                out.push(i);
                proof {
                    assert(out@ == prev.push(i));
                    assert forall|p: int|
                        0 <= p < i as int + 1 && index_accepts(*self, *ray, p)
                    implies exists|j: int| 0 <= j < out@.len() && out@[j] == p by {
                        if p == i as int {
                            assert(out@[out@.len() - 1] == i);
                        } else {
                            let j = choose|j: int| 0 <= j < prev.len() && prev[j] == p;
                            assert(out@[j] == p);
                        }
                    }
                }
            }
            i = i + 1;
        }
        out
    }
}

/// The coarse bound: the mesh's one unpadded axis-aligned box, kept as its
/// two extreme corners.
#[derive(Clone, Copy, PartialEq, Eq, Structural, Debug)]
pub struct PartialBoundImpl {
    pub min_pt: Vec3,
    pub max_pt: Vec3,
}

pub open spec fn partial_bound_wf(pb: PartialBoundImpl) -> bool {
    scene_vec(pb.min_pt) && scene_vec(pb.max_pt)
}

impl PartialBoundImpl {
    pub fn new(inner: &TriMesh) -> (r: PartialBoundImpl)
        requires
            mesh_wf(*inner),
        ensures
            r.min_pt == inner.min_pt,
            r.max_pt == inner.max_pt,
            partial_bound_wf(r),
    {
        let (min_pt, max_pt) = inner.extreme_pts();
        PartialBoundImpl { min_pt, max_pt }
    }

    /// The cheap rejection test: whether the ray's line could cross the
    /// mesh's coarse box, by the slab method.
    pub fn partial_hit(&self, ray: &Ray) -> (r: bool)
        requires
            partial_bound_wf(*self),
            ray_wf(*ray),
        ensures
            r == slab_accept(*ray, v3(self.min_pt), v3(self.max_pt)),
    {
        slab_test(ray, self.min_pt, self.max_pt)
    }
}

proof fn lemma_axis_mono(o: int, d: int, lo1: int, hi1: int, lo2: int, hi2: int)
    requires
        lo2 <= lo1,
        hi1 <= hi2,
    ensures
        axis_enter(o, d, lo2, hi2) <= axis_enter(o, d, lo1, hi1),
        axis_exit(o, d, lo1, hi1) <= axis_exit(o, d, lo2, hi2),
{
    if d != 0 {
        crate::fixed::lemma_div_fx_mono(lo2 - o, lo1 - o, d);
        crate::fixed::lemma_div_fx_mono(hi1 - o, hi2 - o, d);
    }
}

/// Slab acceptance is monotone under box inclusion: a ray accepted against a
/// box is accepted against any box that contains it.
pub proof fn lemma_slab_accept_mono(
    r: Ray,
    mn1: (int, int, int),
    mx1: (int, int, int),
    mn2: (int, int, int),
    mx2: (int, int, int),
)
    requires
        mn2.0 <= mn1.0 && mn2.1 <= mn1.1 && mn2.2 <= mn1.2,
        mx1.0 <= mx2.0 && mx1.1 <= mx2.1 && mx1.2 <= mx2.2,
        slab_accept(r, mn1, mx1),
    ensures
        slab_accept(r, mn2, mx2),
{
    let o = v3(r.origin);
    let d = v3(r.direction);
    lemma_axis_mono(o.0, d.0, mn1.0, mx1.0, mn2.0, mx2.0);
    lemma_axis_mono(o.1, d.1, mn1.1, mx1.1, mn2.1, mx2.1);
    lemma_axis_mono(o.2, d.2, mn1.2, mx1.2, mn2.2, mx2.2);
}

/// The padded broad-phase box of one triangle: its vertex bounding box grown
/// by `BOX_PAD` on every axis.
pub open spec fn padded_min(t: Triangle) -> (int, int, int) {
    (tri_min(t).0 - BOX_PAD as int, tri_min(t).1 - BOX_PAD as int, tri_min(t).2 - BOX_PAD as int)
}

pub open spec fn padded_max(t: Triangle) -> (int, int, int) {
    (tri_max(t).0 + BOX_PAD as int, tri_max(t).1 + BOX_PAD as int, tri_max(t).2 + BOX_PAD as int)
}

/// The exact bound: the mesh together with a broad-phase index holding one
/// padded box per triangle, identifier space exactly the triangle positions.
pub struct BoundImpl {
    pub inner: TriMesh,
    pub index: BoundIndex,
}

pub open spec fn bound_wf(b: BoundImpl) -> bool {
    &&& mesh_wf(b.inner)
    &&& index_wf(b.index)
    &&& b.index.bounds@.len() == b.inner.triangles@.len()
    &&& forall|p: int| 0 <= p < b.inner.triangles@.len()
        ==> v3(#[trigger] b.index.bounds@[p].min_pt) == padded_min(b.inner.triangles@[p])
            && v3(b.index.bounds@[p].max_pt) == padded_max(b.inner.triangles@[p])
}

/// Triangle `p` is a true candidate for this ray: its padded box passes the
/// broad phase and its exact hit test succeeds.
pub open spec fn cand(b: BoundImpl, r: Ray, p: int) -> bool {
    slab_accept(r, padded_min(b.inner.triangles@[p]), padded_max(b.inner.triangles@[p]))
        && tri_hits(b.inner.triangles@[p], r)
}

/// Hit parameter of candidate `p`.
pub open spec fn cand_dist(b: BoundImpl, r: Ray, p: int) -> int {
    hit_incident(b.inner.triangles@[p], r).distance.raw as int
}

/// The mesh's coarse box grown by the broad-phase padding.
pub open spec fn coarse_padded_min(b: BoundImpl) -> (int, int, int) {
    (
        v3(b.inner.min_pt).0 - BOX_PAD as int,
        v3(b.inner.min_pt).1 - BOX_PAD as int,
        v3(b.inner.min_pt).2 - BOX_PAD as int,
    )
}

pub open spec fn coarse_padded_max(b: BoundImpl) -> (int, int, int) {
    (
        v3(b.inner.max_pt).0 + BOX_PAD as int,
        v3(b.inner.max_pt).1 + BOX_PAD as int,
        v3(b.inner.max_pt).2 + BOX_PAD as int,
    )
}

/// Soundness of the coarse rejection test against the exact hit test: a ray
/// that misses the mesh's coarse box, grown by the same padding the broad
/// phase gives every per-triangle box, admits no candidate at all — so by
/// the contract of `BoundImpl::hit` the exact test reports no hit for it.
/// (A ray that passes inside the padding ring around the coarse box may
/// still reach the broad phase; the exact per-triangle test then decides.)
pub proof fn lemma_coarse_rejection_sound(b: BoundImpl, r: Ray)
    requires
        bound_wf(b),
        !slab_accept(r, coarse_padded_min(b), coarse_padded_max(b)),
    ensures
        forall|p: int| 0 <= p < b.inner.triangles@.len() ==> !cand(b, r, p),
{
    let ts = b.inner.triangles@;
    assert forall|p: int| 0 <= p < ts.len() implies !cand(b, r, p) by {
        if slab_accept(r, padded_min(ts[p]), padded_max(ts[p])) {
            crate::trimesh::lemma_mesh_extremes_contain(ts, p, ts.len() as int);
            lemma_slab_accept_mono(
                r,
                padded_min(ts[p]),
                padded_max(ts[p]),
                coarse_padded_min(b),
                coarse_padded_max(b),
            );
        }
    }
}

/// The sampling invariant of the area-weighted walk: a seed in `[0, 1)`
/// scaled by the aggregate area lands strictly inside the final area prefix,
/// so the inverse-CDF walk always returns a triangle before exhausting the
/// sequence.
pub proof fn lemma_area_walk_in_range(ts: Seq<Triangle>, seed: Fx)
    requires
        1 <= ts.len(),
        forall|i: int| 0 <= i < ts.len() ==> tri_wf(#[trigger] ts[i]),
        seed_wf(seed),
    ensures
        0 <= mul_fx(total_area_of(ts), seed.raw as int) < total_area_of(ts),
{
    let t = total_area_of(ts);
    crate::trimesh::lemma_prefix_area_mono(ts, 0, ts.len() as int);
    assert(t >= 1);
    let s = seed.raw as int;
    assert(t * s >= 0) by (nonlinear_arith)
        requires t >= 1 && s >= 0;
    assert(mag(t * s) == t * s);
    assert(mul_fx(t, s) == (t * s) / (SCALE as int));
    vstd::arithmetic::div_mod::lemma_div_pos_is_pos(t * s, SCALE as int);
    let q = (t * s) / (SCALE as int);
    lemma_fundamental_div_mod(t * s, SCALE as int);
    assert((t * s) % (SCALE as int) >= 0) by (nonlinear_arith)
        requires t * s >= 0 && SCALE as int == 10000;
    assert(t * s <= t * ((SCALE as int) - 1)) by (nonlinear_arith)
        requires t >= 1 && s <= (SCALE as int) - 1;
    assert((SCALE as int) * q <= t * (SCALE as int) - t) by (nonlinear_arith)
        requires
            (SCALE as int) * q + (t * s) % (SCALE as int) == t * s
                && (t * s) % (SCALE as int) >= 0
                && t * s <= t * ((SCALE as int) - 1);
    assert(q < t) by (nonlinear_arith)
        requires (SCALE as int) * q <= t * (SCALE as int) - t && t >= 1 && SCALE as int == 10000;
}

/// The seed scaled by the aggregate area: the value the walk searches the
/// area prefixes for.
pub open spec fn scaled_seed(b: BoundImpl, seed: Fx) -> int {
    mul_fx(total_area_of(b.inner.triangles@), seed.raw as int)
}

/// Triangle `i` is the walk's choice: the first whose area prefix reaches
/// the scaled seed.
pub open spec fn picks(b: BoundImpl, seed: Fx, i: int) -> bool {
    &&& 0 <= i < b.inner.triangles@.len()
    &&& prefix_area(b.inner.triangles@, i + 1) >= scaled_seed(b, seed)
    &&& forall|j: int| 0 <= j < i
        ==> #[trigger] prefix_area(b.inner.triangles@, j + 1) < scaled_seed(b, seed)
}

impl BoundImpl {
    /// Wraps the mesh and builds the broad-phase index: one padded box per
    /// triangle, tagged with the triangle's position.
    pub fn new(inner: TriMesh) -> (r: BoundImpl)
        requires
            mesh_wf(inner),
        ensures
            r.inner.triangles@ == inner.triangles@,
            r.inner.total_area == inner.total_area,
            r.inner.min_pt == inner.min_pt,
            r.inner.max_pt == inner.max_pt,
            bound_wf(r),
    {
        let n = inner.triangles.len();
        let mut bound_vec: Vec<GenericBound> = Vec::new();
        let mut i: usize = 0;
        while i < n
            invariant
                0 <= i <= n,
                n == inner.triangles@.len(),
                mesh_wf(inner),
                bound_vec@.len() == i,
                forall|p: int| 0 <= p < i as int
                    ==> (#[trigger] bound_vec@[p].id) == p
                        && v3(bound_vec@[p].min_pt) == padded_min(inner.triangles@[p])
                        && v3(bound_vec@[p].max_pt) == padded_max(inner.triangles@[p])
                        && corner_wf(v3(bound_vec@[p].min_pt))
                        && corner_wf(v3(bound_vec@[p].max_pt)),
            decreases n - i,
        {
            let t = &inner.triangles[i];
            let mn = t.v0.comp_min(t.v1).comp_min(t.v2);
            let mx = t.v0.comp_max(t.v1).comp_max(t.v2);
            let bmin = mn.shift(Fx { raw: -BOX_PAD });
            let bmax = mx.shift(Fx { raw: BOX_PAD });
            let ghost prev = bound_vec@;
            bound_vec.push(GenericBound::new(i, bmin, bmax));
            proof {
                assert(bound_vec@ == prev.push(GenericBound { id: i, min_pt: bmin, max_pt: bmax }));
                assert forall|p: int| 0 <= p < i as int
                implies (#[trigger] bound_vec@[p].id) == p
                    && v3(bound_vec@[p].min_pt) == padded_min(inner.triangles@[p])
                    && v3(bound_vec@[p].max_pt) == padded_max(inner.triangles@[p])
                    && corner_wf(v3(bound_vec@[p].min_pt))
                    && corner_wf(v3(bound_vec@[p].max_pt)) by {
                    assert(bound_vec@[p] == prev[p]);
                    assert(prev[p].id == p);
                }
                assert(tri_wf(inner.triangles@[i as int]));
                assert(bound_vec@[i as int].id == i);
                assert(v3(bound_vec@[i as int].min_pt) == padded_min(inner.triangles@[i as int]));
                assert(v3(bound_vec@[i as int].max_pt) == padded_max(inner.triangles@[i as int]));
                assert(corner_wf(v3(bound_vec@[i as int].min_pt)));
                assert(corner_wf(v3(bound_vec@[i as int].max_pt)));
            }
            i = i + 1;
        }
        proof {
            assert forall|p: int| 0 <= p < bound_vec@.len()
            implies corner_wf(v3(#[trigger] bound_vec@[p].min_pt))
                && corner_wf(v3(bound_vec@[p].max_pt))
                && bound_vec@[p].id == p
                && v3(bound_vec@[p].min_pt) == padded_min(inner.triangles@[p])
                && v3(bound_vec@[p].max_pt) == padded_max(inner.triangles@[p]) by {
                assert(bound_vec@[p].id == p);
            }
        }
        BoundImpl { inner, index: BoundIndex::new(bound_vec) }
    }

    pub fn area(&self) -> (r: Fx)
        ensures
            r == self.inner.total_area,
    {
        self.inner.area()
    }

    /// Exact ray-mesh intersection. The broad phase proposes the candidates
    /// whose padded box the ray could cross; among the candidates whose exact
    /// test succeeds, the reported incident is the one with the smallest hit
    /// parameter, ties resolved in favour of the lowest triangle position.
    pub fn hit(&self, ray: &Ray) -> (r: Option<Incident>)
        requires
            bound_wf(*self),
            ray_wf(*ray),
        ensures
            r is None ==> forall|p: int| 0 <= p < self.inner.triangles@.len()
                ==> !cand(*self, *ray, p),
            r matches Some(inc) ==> {
                &&& incident_wf(inc)
                &&& exists|p: int|
                    {
                        &&& 0 <= p < self.inner.triangles@.len()
                        &&& #[trigger] cand(*self, *ray, p)
                        &&& inc == hit_incident(self.inner.triangles@[p], *ray)
                        &&& forall|q: int| 0 <= q < p && #[trigger] cand(*self, *ray, q)
                            ==> cand_dist(*self, *ray, q) > inc.distance.raw as int
                    }
                &&& forall|q: int| 0 <= q < self.inner.triangles@.len()
                    && #[trigger] cand(*self, *ray, q)
                    ==> cand_dist(*self, *ray, q) >= inc.distance.raw as int
            },
    {
        let ids = self.index.query(ray);
        let ghost ts = self.inner.triangles@;
        if ids.len() == 0 {
            proof {
                assert forall|p: int| 0 <= p < ts.len() implies !cand(*self, *ray, p) by {
                    if cand(*self, *ray, p) {
                        assert(index_accepts(self.index, *ray, p));
                    }
                }
            }
            return None;
        }
        let mut best: Option<Incident> = None;
        let ghost mut best_j: int = 0;
        let mut ci: usize = 0;
        while ci < ids.len()
            invariant
                0 <= ci <= ids@.len(),
                bound_wf(*self),
                ray_wf(*ray),
                ts == self.inner.triangles@,
                forall|j: int| 0 <= j < ids@.len()
                    ==> (#[trigger] ids@[j]) < ts.len()
                        && index_accepts(self.index, *ray, ids@[j] as int),
                forall|a: int, b: int| 0 <= a < b < ids@.len() ==> ids@[a] < ids@[b],
                forall|p: int| 0 <= p < ts.len() && (#[trigger] index_accepts(self.index, *ray, p))
                    ==> exists|j: int| 0 <= j < ids@.len() && ids@[j] == p,
                best is None ==> forall|j: int| 0 <= j < ci as int
                    ==> !tri_hits(ts[(#[trigger] ids@[j]) as int], *ray),
                best matches Some(inc) ==> {
                    &&& incident_wf(inc)
                    &&& 0 <= best_j < ci as int
                    &&& tri_hits(ts[ids@[best_j] as int], *ray)
                    &&& inc == hit_incident(ts[ids@[best_j] as int], *ray)
                    &&& forall|j: int| 0 <= j < ci as int
                        && tri_hits(ts[(#[trigger] ids@[j]) as int], *ray)
                        ==> hit_incident(ts[ids@[j] as int], *ray).distance.raw
                            >= inc.distance.raw
                    &&& forall|j: int| 0 <= j < best_j
                        && tri_hits(ts[(#[trigger] ids@[j]) as int], *ray)
                        ==> hit_incident(ts[ids@[j] as int], *ray).distance.raw
                            > inc.distance.raw
                },
            decreases ids@.len() - ci,
        {
            let id = ids[ci];
            let found = self.inner.triangles[id].hit(ray);
            match found {
                Some(inc2) => {
                    let take = match &best {
                        Option::None => true,
                        Option::Some(cur) => inc2.distance.raw < cur.distance.raw,
                    };
                    if take {
                        best = Some(inc2);
                        proof {
                            best_j = ci as int;
                        }
                    }
                },
                Option::None => {},
            }
            ci = ci + 1;
        }
        proof {
            match best {
                Option::None => {
                    assert forall|p: int| 0 <= p < ts.len() implies !cand(*self, *ray, p) by {
                        if cand(*self, *ray, p) {
                            assert(index_accepts(self.index, *ray, p));
                            let j = choose|j: int| 0 <= j < ids@.len() && ids@[j] == p;
                            assert(!tri_hits(ts[ids@[j] as int], *ray));
                        }
                    }
                },
                Option::Some(inc) => {
                    let pw = ids@[best_j] as int;
                    assert(cand(*self, *ray, pw));
                    assert forall|q: int|
                        0 <= q < ts.len() && #[trigger] cand(*self, *ray, q)
                    implies cand_dist(*self, *ray, q) >= inc.distance.raw as int by {
                        assert(index_accepts(self.index, *ray, q));
                        let j = choose|j: int| 0 <= j < ids@.len() && ids@[j] == q;
                        assert(tri_hits(ts[ids@[j] as int], *ray));
                    }
                    assert forall|q: int|
                        0 <= q < pw && #[trigger] cand(*self, *ray, q)
                    implies cand_dist(*self, *ray, q) > inc.distance.raw as int by {
                        assert(index_accepts(self.index, *ray, q));
                        let j = choose|j: int| 0 <= j < ids@.len() && ids@[j] == q;
                        if j > best_j {
                            assert(ids@[best_j] < ids@[j]);
                            assert(false);
                        } else if j == best_j {
                            assert(false);
                        }
                        assert(tri_hits(ts[ids@[j] as int], *ray));
                    }
                },
            }
        }
        best
    }

    /// Area-proportional triangle sampling: the seed is scaled by the
    /// aggregate area and the triangle sequence is walked, subtracting each
    /// area, until the running value is used up. The walk provably cannot
    /// exhaust the sequence (`lemma_area_walk_in_range`).
    pub fn sample_triangle(&self, seed: Fx) -> (r: Triangle)
        requires
            bound_wf(*self),
            seed_wf(seed),
        ensures
            exists|i: int| #[trigger] picks(*self, seed, i) && r == self.inner.triangles@[i],
            tri_wf(r),
    {
        let ghost ts = self.inner.triangles@;
        let n = self.inner.triangles.len();
        proof {
            crate::trimesh::lemma_prefix_area_mono(ts, 0, ts.len() as int);
            lemma_area_walk_in_range(ts, seed);
        }
        let sampled = self.inner.total_area.times(seed);
        let mut cur: i128 = sampled.raw;
        let mut i: usize = 0;
        while i < n
            invariant
                0 <= i <= n,
                n == ts.len(),
                ts == self.inner.triangles@,
                bound_wf(*self),
                sampled.raw as int == scaled_seed(*self, seed),
                0 <= sampled.raw as int,
                (sampled.raw as int) < total_area_of(ts),
                cur as int == sampled.raw as int - prefix_area(ts, i as int),
                forall|j: int| 0 <= j < i as int
                    ==> #[trigger] prefix_area(ts, j + 1) < sampled.raw as int,
            decreases n - i,
        {
            proof {
                crate::trimesh::lemma_prefix_area_mono(ts, 0, i as int);
                crate::trimesh::lemma_prefix_area_mono(ts, i as int + 1, ts.len() as int);
            }
            cur = cur - self.inner.triangles[i].area.raw;
            if cur <= 0 {
                proof {
                    assert(prefix_area(ts, i as int + 1)
                        == prefix_area(ts, i as int) + ts[i as int].area.raw as int);
                    assert(picks(*self, seed, i as int));
                }
                return self.inner.triangles[i];
            }
            proof {
                assert(prefix_area(ts, i as int + 1)
                    == prefix_area(ts, i as int) + ts[i as int].area.raw as int);
            }
            i = i + 1;
        }
        proof {
            assert(prefix_area(ts, (n as int - 1) + 1) < sampled.raw as int);
            assert(false);
        }
        self.inner.triangles[0]
    }
}

} // verus!
