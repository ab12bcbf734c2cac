//! The geometric mesh: an ordered collection of triangles with its aggregate
//! area and its extreme points, all fixed at construction.

use vstd::prelude::*;
use crate::fixed::Fx;
use crate::vec3::{Vec3, v3, t_mag_le};
use crate::triangle::{Triangle, tri_wf};
use crate::incident::{scene_vec, SCENE_CAP};

verus! {

/// Sum of the areas of the first `k` triangles, in raw fixed-point steps.
pub open spec fn prefix_area(ts: Seq<Triangle>, k: int) -> int
    decreases k,
{
    if k <= 0 {
        0
    } else {
        prefix_area(ts, k - 1) + ts[k - 1].area.raw as int
    }
}

/// Aggregate area of the whole mesh, in raw fixed-point steps.
pub open spec fn total_area_of(ts: Seq<Triangle>) -> int {
    prefix_area(ts, ts.len() as int)
}

pub open spec fn t_min3(a: (int, int, int), b: (int, int, int)) -> (int, int, int) {
    (
        if a.0 <= b.0 { a.0 } else { b.0 },
        if a.1 <= b.1 { a.1 } else { b.1 },
        if a.2 <= b.2 { a.2 } else { b.2 },
    )
}

pub open spec fn t_max3(a: (int, int, int), b: (int, int, int)) -> (int, int, int) {
    (
        if a.0 >= b.0 { a.0 } else { b.0 },
        if a.1 >= b.1 { a.1 } else { b.1 },
        if a.2 >= b.2 { a.2 } else { b.2 },
    )
}

pub open spec fn tri_min(t: Triangle) -> (int, int, int) {
    t_min3(t_min3(v3(t.v0), v3(t.v1)), v3(t.v2))
}

pub open spec fn tri_max(t: Triangle) -> (int, int, int) {
    t_max3(t_max3(v3(t.v0), v3(t.v1)), v3(t.v2))
}

/// Componentwise minimum corner over the first `k` triangles (`k >= 1`).
pub open spec fn mesh_min(ts: Seq<Triangle>, k: int) -> (int, int, int)
    decreases k,
{
    if k <= 1 {
        tri_min(ts[0])
    } else {
        t_min3(mesh_min(ts, k - 1), tri_min(ts[k - 1]))
    }
}

/// Componentwise maximum corner over the first `k` triangles (`k >= 1`).
pub open spec fn mesh_max(ts: Seq<Triangle>, k: int) -> (int, int, int)
    decreases k,
{
    if k <= 1 {
        tri_max(ts[0])
    } else {
        t_max3(mesh_max(ts, k - 1), tri_max(ts[k - 1]))
    }
}

/// Area prefixes grow strictly: every well-formed triangle has positive area.
pub proof fn lemma_prefix_area_mono(ts: Seq<Triangle>, j: int, k: int)
    requires
        0 <= j <= k <= ts.len(),
        forall|i: int| 0 <= i < ts.len() ==> tri_wf(#[trigger] ts[i]),
    ensures
        prefix_area(ts, j) <= prefix_area(ts, k),
        j < k ==> prefix_area(ts, j) < prefix_area(ts, k),
        prefix_area(ts, k) <= k * (SCENE_CAP as int),
    decreases k,
{
    if k > 0 {
        if j == k {
            lemma_prefix_area_mono(ts, 0, k - 1);
        } else {
            lemma_prefix_area_mono(ts, j, k - 1);
        }
    }
}

/// Every triangle's vertex box lies between the extreme corners of any
/// prefix that contains it.
pub proof fn lemma_mesh_extremes_contain(ts: Seq<Triangle>, p: int, k: int)
    requires
        0 <= p < k <= ts.len(),
    ensures
        mesh_min(ts, k).0 <= tri_min(ts[p]).0,
        mesh_min(ts, k).1 <= tri_min(ts[p]).1,
        mesh_min(ts, k).2 <= tri_min(ts[p]).2,
        tri_max(ts[p]).0 <= mesh_max(ts, k).0,
        tri_max(ts[p]).1 <= mesh_max(ts, k).1,
        tri_max(ts[p]).2 <= mesh_max(ts, k).2,
    decreases k,
{
    if k > p + 1 {
        lemma_mesh_extremes_contain(ts, p, k - 1);
    }
}

/// A mesh as consumed by the bounded-mesh core: the triangle sequence is
/// non-empty and well formed, and the stored aggregate area and extreme
/// points are exactly those of the sequence.
pub struct TriMesh {
    pub triangles: Vec<Triangle>,
    pub total_area: Fx,
    pub min_pt: Vec3,
    pub max_pt: Vec3,
}

pub open spec fn mesh_wf(m: TriMesh) -> bool {
    &&& 1 <= m.triangles@.len() <= 1_000_000_000
    &&& forall|i: int| 0 <= i < m.triangles@.len() ==> tri_wf(#[trigger] m.triangles@[i])
    &&& m.total_area.raw as int == total_area_of(m.triangles@)
    &&& m.total_area.raw > 0
    &&& v3(m.min_pt) == mesh_min(m.triangles@, m.triangles@.len() as int)
    &&& v3(m.max_pt) == mesh_max(m.triangles@, m.triangles@.len() as int)
    &&& scene_vec(m.min_pt)
    &&& scene_vec(m.max_pt)
}

impl TriMesh {
    /// Builds the mesh from loaded triangles, measuring the aggregate area
    /// and the two extreme corners in one pass each.
    pub fn new(triangles: Vec<Triangle>) -> (r: TriMesh)
        requires
            1 <= triangles@.len() <= 1_000_000_000,
            forall|i: int| 0 <= i < triangles@.len() ==> tri_wf(#[trigger] triangles@[i]),
        ensures
            r.triangles@ == triangles@,
            mesh_wf(r),
    {
        let n = triangles.len();
        let mut total: i128 = 0;
        let mut i: usize = 0;
        while i < n
            invariant
                0 <= i <= n,
                n == triangles@.len() <= 1_000_000_000,
                forall|j: int| 0 <= j < triangles@.len() ==> tri_wf(#[trigger] triangles@[j]),
                total as int == prefix_area(triangles@, i as int),
                0 <= total as int <= (i as int) * (SCENE_CAP as int),
            decreases n - i,
        {
            proof {
                lemma_prefix_area_mono(triangles@, 0, i as int + 1);
            }
            total = total + triangles[i].area.raw;
            i = i + 1;
        }
        proof {
            lemma_prefix_area_mono(triangles@, 0, n as int);
        }

        let mut mn = triangles[0].v0.comp_min(triangles[0].v1).comp_min(triangles[0].v2);
        let mut mx = triangles[0].v0.comp_max(triangles[0].v1).comp_max(triangles[0].v2);
        let mut k: usize = 1;
        while k < n
            invariant
                1 <= k <= n,
                n == triangles@.len(),
                forall|j: int| 0 <= j < triangles@.len() ==> tri_wf(#[trigger] triangles@[j]),
                v3(mn) == mesh_min(triangles@, k as int),
                v3(mx) == mesh_max(triangles@, k as int),
                t_mag_le(v3(mn), SCENE_CAP as int),
                t_mag_le(v3(mx), SCENE_CAP as int),
            decreases n - k,
        {
            let t = &triangles[k];
            mn = mn.comp_min(t.v0.comp_min(t.v1).comp_min(t.v2));
            mx = mx.comp_max(t.v0.comp_max(t.v1).comp_max(t.v2));
            k = k + 1;
        }

        TriMesh { triangles, total_area: Fx { raw: total }, min_pt: mn, max_pt: mx }
    }

    pub fn triangles(&self) -> (r: &Vec<Triangle>)
        ensures
            r@ == self.triangles@,
    {
        &self.triangles
    }

    pub fn area(&self) -> (r: Fx)
        ensures
            r == self.total_area,
    {
        self.total_area
    }

    pub fn extreme_pts(&self) -> (r: (Vec3, Vec3))
        ensures
            r == (self.min_pt, self.max_pt),
    {
        (self.min_pt, self.max_pt)
    }
}

} // verus!
