//! The ray-traceable object: a two-tier bounded mesh bound to one material
//! strategy, exposing the combined query surface an external integrator
//! needs. Immutable after construction, so one instance may serve any number
//! of concurrent readers.

use vstd::prelude::*;
use crate::fixed::{Fx, SCALE, div_fx};
use crate::vec3::{Vec3, v3};
use crate::incident::{
    Ray, Incident, ProcessedIncident, LightSample,
    ray_wf, incident_wf, seed_wf,
};
use crate::triangle::sampled_point;
use crate::trimesh::TriMesh;
use crate::bound::{
    BoundImpl, PartialBoundImpl, bound_wf, partial_bound_wf,
    slab_accept, cand, cand_dist, picks,
};
use crate::materials::Material;

verus! {

pub struct Mesh {
    pub name: String,
    pub bound: BoundImpl,
    pub partial_bound: PartialBoundImpl,
    pub material: Box<dyn Material>,
}

/// The exact bound is well formed and the coarse bound holds exactly the
/// mesh's extreme corners.
pub open spec fn object_wf(m: Mesh) -> bool {
    &&& bound_wf(m.bound)
    &&& partial_bound_wf(m.partial_bound)
    &&& m.partial_bound.min_pt == m.bound.inner.min_pt
    &&& m.partial_bound.max_pt == m.bound.inner.max_pt
}

impl Mesh {
    /// Binds loaded geometry to a material strategy, building both bounding
    /// tiers once. The geometry and the strategy never change afterwards.
    pub fn new(name: String, geometry: TriMesh, material: Box<dyn Material>) -> (r: Mesh)
        requires
            crate::trimesh::mesh_wf(geometry),
        ensures
            object_wf(r),
            r.name@ == name@,
            r.bound.inner.triangles@ == geometry.triangles@,
            r.bound.inner.total_area == geometry.total_area,
    {
        let partial_bound = PartialBoundImpl::new(&geometry);
        let bound = BoundImpl::new(geometry);

        Mesh { name, bound, partial_bound, material }
    }

    /// Exact ray-mesh intersection through the broad phase; the reported
    /// incident is the nearest true hit among the candidates, ties resolved
    /// by the lowest triangle position.
    pub fn hit(&self, ray: &Ray) -> (r: Option<Incident>)
        requires
            object_wf(*self),
            ray_wf(*ray),
        ensures
            r is None ==> forall|p: int| 0 <= p < self.bound.inner.triangles@.len()
                ==> !cand(self.bound, *ray, p),
            r matches Some(inc) ==> {
                &&& incident_wf(inc)
                &&& exists|p: int|
                    {
                        &&& 0 <= p < self.bound.inner.triangles@.len()
                        &&& #[trigger] cand(self.bound, *ray, p)
                        &&& inc == crate::triangle::hit_incident(self.bound.inner.triangles@[p], *ray)
                        &&& forall|q: int| 0 <= q < p && #[trigger] cand(self.bound, *ray, q)
                            ==> cand_dist(self.bound, *ray, q) > inc.distance.raw as int
                    }
                &&& forall|q: int| 0 <= q < self.bound.inner.triangles@.len()
                    && #[trigger] cand(self.bound, *ray, q)
                    ==> cand_dist(self.bound, *ray, q) >= inc.distance.raw as int
            },
    {
        self.bound.hit(ray)
    }

    /// The cheap coarse pre-filter: the slab test on the whole-mesh box.
    pub fn partial_hit(&self, ray: &Ray) -> (r: bool)
        requires
            object_wf(*self),
            ray_wf(*ray),
        ensures
            r == slab_accept(*ray, v3(self.partial_bound.min_pt), v3(self.partial_bound.max_pt)),
    {
        self.partial_bound.partial_hit(ray)
    }

    /// Light-transport dispatch: hands the incident to the selected material
    /// strategy.
    pub fn interact(&self, incident: Incident, seed: Fx) -> ProcessedIncident {
        self.material.interact(incident, seed)
    }

    /// Dispatch for an externally chosen direction and density.
    pub fn interact_predetermined(
        &self,
        incident: Incident,
        w_r: Vec3,
        pdf: Fx,
        seed: Fx,
    ) -> ProcessedIncident {
        self.material.interact_predetermined(incident, w_r, pdf, seed)
    }

    pub fn name(&self) -> (r: String)
        ensures
            r@ == self.name@,
    {
        self.name.clone()
    }

    pub fn area(&self) -> (r: Fx)
        ensures
            r == self.bound.inner.total_area,
    {
        self.bound.area()
    }

    /// This object type is never an emitter.
    pub fn emit(&self) -> (r: Option<Vec3>)
        ensures
            r is None,
    {
        None
    }

    /// The material strategy's focus hint, passed through.
    pub fn focus(&self) -> bool {
        self.material.focus()
    }

    /// Draws a triangle area-weighted, then a point uniformly on it. The
    /// position density is one over the aggregate area: the two draws compose
    /// to a uniform density over the whole mesh surface.
    pub fn sample_position(&self, seed: Fx, s1: Fx, s2: Fx) -> (r: (Vec3, Vec3, Fx))
        requires
            object_wf(*self),
            seed_wf(seed),
            seed_wf(s1),
            seed_wf(s2),
        ensures
            exists|i: int|
                {
                    &&& #[trigger] picks(self.bound, seed, i)
                    &&& v3(r.0) == sampled_point(self.bound.inner.triangles@[i], s1.raw as int, s2.raw as int)
                    &&& r.1 == self.bound.inner.triangles@[i].normal
                },
            r.2.raw as int == div_fx(SCALE as int, self.bound.inner.total_area.raw as int),
    {
        let triangle = self.bound.sample_triangle(seed);

        let (coords, _bary) = triangle.sample_location(s1, s2);
        proof {
            crate::trimesh::lemma_prefix_area_mono(
                self.bound.inner.triangles@, 0, self.bound.inner.triangles@.len() as int,
            );
        }
        let position_pdf = Fx::one().over(self.area());

        (coords, triangle.normal(), position_pdf)
    }

    /// Redraws a triangle area-weighted and delegates to its direction
    /// sampler (a collimated emitter along the facet normal). The handed-in
    /// coordinates and normal do not influence the draw.
    pub fn sample_direction(&self, coords: Vec3, normal: Vec3, seed: Fx) -> (r: (Vec3, Fx))
        requires
            object_wf(*self),
            seed_wf(seed),
        ensures
            exists|i: int| #[trigger] picks(self.bound, seed, i)
                && r.0 == self.bound.inner.triangles@[i].normal,
            r.1.raw == SCALE,
    {
        let triangle = self.bound.sample_triangle(seed);
        triangle.sample_direction()
    }

    /// One full area-light sample: a point drawn on one area-weighted
    /// triangle, packaged as an outgoing ray along the triangle's emission
    /// direction with both densities.
    pub fn sample_light(&self, seed: Fx, s1: Fx, s2: Fx) -> (r: LightSample)
        requires
            object_wf(*self),
            seed_wf(seed),
            seed_wf(s1),
            seed_wf(s2),
        ensures
            exists|i: int|
                {
                    &&& #[trigger] picks(self.bound, seed, i)
                    &&& v3(r.ray.origin) == sampled_point(self.bound.inner.triangles@[i], s1.raw as int, s2.raw as int)
                    &&& r.ray.direction == self.bound.inner.triangles@[i].normal
                    &&& r.normal == self.bound.inner.triangles@[i].normal
                },
            r.position_pdf.raw as int == div_fx(SCALE as int, self.bound.inner.total_area.raw as int),
            r.direction_pdf.raw == SCALE,
    {
        let triangle = self.bound.sample_triangle(seed);

        let (coords, _bary) = triangle.sample_location(s1, s2);
        proof {
            crate::trimesh::lemma_prefix_area_mono(
                self.bound.inner.triangles@, 0, self.bound.inner.triangles@.len() as int,
            );
        }
        let position_pdf = Fx::one().over(self.area());
        let (direction, direction_pdf) = triangle.sample_direction();

        let ray = Ray::new(coords, direction);

        LightSample { ray, normal: triangle.normal(), position_pdf, direction_pdf }
    }
}

} // verus!
