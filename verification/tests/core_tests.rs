use raycore::fixed::{Fx, SCALE};
use raycore::vec3::Vec3;
use raycore::incident::{Ray, Incident, ProcessedIncident, BRDFIncident};
use raycore::triangle::Triangle;
use raycore::trimesh::TriMesh;
use raycore::bound::{BoundImpl, PartialBoundImpl};
use raycore::materials::{Material, BRDFReflector, Refractor};
use raycore::object::Mesh;

fn fx(raw: i128) -> Fx {
    Fx::from_raw(raw)
}

fn v(x: i128, y: i128, z: i128) -> Vec3 {
    Vec3::new(fx(x), fx(y), fx(z))
}

/// One unit: 10000 raw steps.
const ONE: i128 = 10000;

fn unit_triangle() -> Triangle {
    // vertices (0,0,0), (1,0,0), (0,1,0); area 0.5; normal (0,0,1)
    Triangle::new(
        v(0, 0, 0),
        v(ONE, 0, 0),
        v(0, ONE, 0),
        fx(ONE / 2),
        v(0, 0, ONE),
    )
}

fn shifted_triangle(z: i128, area: i128) -> Triangle {
    Triangle::new(
        v(0, 0, z),
        v(2 * ONE, 0, z),
        v(0, 2 * ONE, z),
        fx(area),
        v(0, 0, ONE),
    )
}

struct TestReflector;

impl BRDFReflector for TestReflector {
    fn f_r(&self, _coords: Vec3, _w_i: Vec3, _w_r: Vec3, _normal: Vec3, _seed: Fx) -> Vec3 {
        // reflectance (0.5, 0.25, 1.0)
        v(ONE / 2, ONE / 4, ONE)
    }

    fn sample_reflected(&self, _coords: Vec3, _w_i: Vec3, _normal: Vec3, _seed: Fx) -> (Vec3, Fx) {
        // direction (0,0,1), density 0.5
        (v(0, 0, ONE), fx(ONE / 2))
    }
}

struct NegativeReflector;

impl BRDFReflector for NegativeReflector {
    fn f_r(&self, _coords: Vec3, _w_i: Vec3, _w_r: Vec3, _normal: Vec3, _seed: Fx) -> Vec3 {
        // a reflectance with a negative channel: inconsistent with its density
        v(-ONE, ONE, ONE)
    }

    fn sample_reflected(&self, _coords: Vec3, _w_i: Vec3, _normal: Vec3, _seed: Fx) -> (Vec3, Fx) {
        (v(0, 0, ONE), fx(ONE))
    }
}

struct TestRefractor;

impl Refractor for TestRefractor {
    fn sample_refracted(&self, _coords: Vec3, _w_i: Vec3, _normal: Vec3, inside: bool, _seed: Fx) -> Vec3 {
        if inside {
            v(0, 0, ONE)
        } else {
            v(0, 0, -ONE)
        }
    }
}

struct TestMaterial;

impl Material for TestMaterial {
    fn interact(&self, incident: Incident, _seed: Fx) -> ProcessedIncident {
        ProcessedIncident { w_r: incident.normal(), multiplier: v(ONE, ONE, ONE), emission: None }
    }

    fn interact_predetermined(
        &self,
        _incident: Incident,
        w_r: Vec3,
        pdf: Fx,
        _seed: Fx,
    ) -> ProcessedIncident {
        ProcessedIncident { w_r, multiplier: Vec3::new(pdf, pdf, pdf), emission: None }
    }

    fn focus(&self) -> bool {
        true
    }
}

fn sample_incident() -> Incident {
    Incident {
        coords: v(0, 0, 0),
        w_i: v(0, 0, ONE),
        normal: v(0, 0, ONE),
        distance: fx(ONE),
        inside: false,
    }
}

#[test]
fn fixed_point_products_truncate_toward_zero() {
    assert_eq!(fx(15000).times(fx(-20000)).raw, -30000); // 1.5 * -2.0 == -3.0
    assert_eq!(fx(10000).over(fx(30000)).raw, 3333); // 1/3 truncated
    assert_eq!(fx(-10000).over(fx(30000)).raw, -3333); // -1/3 truncated toward zero
    assert_eq!(fx(10000).over(fx(5000)).raw, 20000); // 1 / 0.5 == 2
    assert_eq!(fx(25000).plus(fx(-5000)).raw, 20000);
    assert_eq!(fx(25000).minus(fx(5000)).raw, 20000);
}

#[test]
fn mesh_aggregates_area_and_extreme_points() {
    let mesh = TriMesh::new(vec![unit_triangle(), shifted_triangle(ONE, 2 * ONE)]);
    assert_eq!(mesh.area().raw, ONE / 2 + 2 * ONE);
    let (mn, mx) = mesh.extreme_pts();
    assert_eq!((mn.x.raw, mn.y.raw, mn.z.raw), (0, 0, 0));
    assert_eq!((mx.x.raw, mx.y.raw, mx.z.raw), (2 * ONE, 2 * ONE, ONE));
}

#[test]
fn single_triangle_always_sampled() {
    // every seed in [0,1) must select the only triangle
    let bound = BoundImpl::new(TriMesh::new(vec![unit_triangle()]));
    for s in 0..SCALE {
        let t = bound.sample_triangle(fx(s));
        assert_eq!(t.area().raw, ONE / 2);
        assert_eq!(t.normal().z.raw, ONE);
    }
}

#[test]
fn position_density_is_inverse_area() {
    // area 0.5 => position density exactly 2.0
    let mesh = Mesh::new(String::from("unit"), TriMesh::new(vec![unit_triangle()]), Box::new(TestMaterial));
    let (_p, n, pdf) = mesh.sample_position(fx(1234), fx(2000), fx(3000));
    assert_eq!(pdf.raw, 2 * ONE);
    assert_eq!(n.z.raw, ONE);
}

#[test]
fn triangle_selection_frequency_matches_area_share() {
    // areas 1.0 and 3.0: the walk picks the first triangle iff the scaled
    // seed 4*s stays within the first prefix 1.0, i.e. s <= 0.25
    let t1 = Triangle::new(v(0, 0, 0), v(2 * ONE, 0, 0), v(0, ONE, 0), fx(ONE), v(0, 0, ONE));
    let t2 = Triangle::new(
        v(0, 0, ONE),
        v(2 * ONE, 0, ONE),
        v(0, 3 * ONE, ONE),
        fx(3 * ONE),
        v(0, 0, ONE),
    );
    let bound = BoundImpl::new(TriMesh::new(vec![t1, t2]));
    let mut first: u32 = 0;
    let mut second: u32 = 0;
    for s in 0..SCALE {
        let t = bound.sample_triangle(fx(s));
        if t.area().raw == ONE {
            first += 1;
        } else {
            second += 1;
        }
    }
    assert_eq!(first, 2501);
    assert_eq!(second, 7499);
    // empirical shares converge on 1/4 and 3/4
    assert!((first as f64 / SCALE as f64 - 0.25).abs() < 0.001);
    assert!((second as f64 / SCALE as f64 - 0.75).abs() < 0.001);
}

#[test]
fn axis_ray_hits_unit_triangle_at_unit_distance() {
    // origin (0,0,-1), direction (0,0,1): coarse test accepts, exact hit at
    // parameter 1.0 with the normal facing back along the ray
    let mesh = Mesh::new(String::from("unit"), TriMesh::new(vec![unit_triangle()]), Box::new(TestMaterial));
    let ray = Ray::new(v(0, 0, -ONE), v(0, 0, ONE));
    assert!(mesh.partial_hit(&ray));
    let inc = mesh.hit(&ray).expect("exact hit expected");
    assert_eq!(inc.distance().raw, ONE);
    assert_eq!(inc.normal().z.raw, -ONE);
    assert!(inc.inside());
    assert_eq!(inc.coords().z.raw, 0);
}

#[test]
fn nearest_of_two_overlapping_triangles_wins() {
    // the farther triangle stands first in the sequence; the hit must still
    // report the strictly nearer one
    let far = shifted_triangle(2 * ONE, 2 * ONE);
    let near = shifted_triangle(ONE, 2 * ONE);
    let mesh = Mesh::new(String::from("pair"), TriMesh::new(vec![far, near]), Box::new(TestMaterial));
    let ray = Ray::new(v(2000, 2000, -ONE), v(0, 0, ONE));
    let inc = mesh.hit(&ray).expect("both triangles intersect");
    assert_eq!(inc.distance().raw, 2 * ONE);
}

#[test]
fn coarse_miss_implies_exact_miss() {
    let mesh = Mesh::new(String::from("unit"), TriMesh::new(vec![unit_triangle()]), Box::new(TestMaterial));
    // ray far outside the box, parallel to its z-slab
    let sideways = Ray::new(v(5 * ONE, 5 * ONE, -ONE), v(0, 0, ONE));
    assert!(!mesh.partial_hit(&sideways));
    assert!(mesh.hit(&sideways).is_none());
    // ray pointing away: the box lies entirely behind the origin
    let behind = Ray::new(v(2000, 2000, ONE), v(0, 0, ONE));
    assert!(!mesh.partial_hit(&behind));
    assert!(mesh.hit(&behind).is_none());
}

#[test]
fn coarse_test_handles_zero_direction_components() {
    let mesh = Mesh::new(String::from("unit"), TriMesh::new(vec![unit_triangle()]), Box::new(TestMaterial));
    // both x and y direction components are zero with the origin inside the
    // x/y slabs: only the z axis constrains the outcome
    let inside = Ray::new(v(2000, 2000, -ONE), v(0, 0, ONE));
    assert!(mesh.partial_hit(&inside));
    // origin outside the x slab with a zero x component: no crossing ever
    let outside = Ray::new(v(-ONE, 2000, -ONE), v(0, 0, ONE));
    assert!(!mesh.partial_hit(&outside));
}

#[test]
fn multiplier_follows_reflectance_projection_over_density() {
    // f_r (0.5, 0.25, 1.0), w_r == normal, pdf 0.5:
    // multiplier == f_r * 1.0 / 0.5 == (1.0, 0.5, 2.0)
    let m = TestReflector;
    let inc = sample_incident();
    let out = m.reflect_predetermined(&inc, v(0, 0, ONE), fx(ONE / 2), fx(0));
    assert_eq!(out.multiplier.x.raw, ONE);
    assert_eq!(out.multiplier.y.raw, ONE / 2);
    assert_eq!(out.multiplier.z.raw, 2 * ONE);
    assert_eq!(out.pdf.raw, ONE / 2);
    assert!(out.consistent());
}

#[test]
fn zero_density_yields_neutral_multiplier() {
    let m = TestReflector;
    let inc = sample_incident();
    let out = m.reflect_predetermined(&inc, v(0, 0, ONE), fx(0), fx(0));
    assert_eq!(out.multiplier.x.raw, ONE);
    assert_eq!(out.multiplier.y.raw, ONE);
    assert_eq!(out.multiplier.z.raw, ONE);
}

#[test]
fn reflect_equals_manual_composition() {
    // the composed default path must match sampling and weighing by hand
    let m = TestReflector;
    let inc = sample_incident();
    let seed = fx(4242);
    let composed: BRDFIncident = m.reflect(&inc, seed);
    let (w_r, pdf) = m.sample_reflected(inc.coords(), inc.w_i(), inc.normal(), seed);
    let manual = m.reflect_predetermined(&inc, w_r, pdf, seed);
    assert_eq!(composed, manual);
}

#[test]
fn negative_multiplier_is_observable() {
    let m = NegativeReflector;
    let inc = sample_incident();
    let out = m.reflect_predetermined(&inc, v(0, 0, ONE), fx(ONE), fx(0));
    assert!(out.multiplier.x.raw < 0);
    assert!(!out.consistent());
}

#[test]
fn refract_wraps_sampled_direction() {
    let m = TestRefractor;
    let mut inc = sample_incident();
    let out = m.refract(&inc, fx(0));
    assert_eq!(out.w_r.z.raw, -ONE);
    inc.inside = true;
    let out_inside = m.refract(&inc, fx(0));
    assert_eq!(out_inside.w_r.z.raw, ONE);
}

#[test]
fn object_delegates_interaction_and_hints() {
    let mesh = Mesh::new(String::from("unit"), TriMesh::new(vec![unit_triangle()]), Box::new(TestMaterial));
    let inc = sample_incident();
    let processed = mesh.interact(inc, fx(0));
    assert_eq!(processed.w_r.z.raw, ONE);
    let predet = mesh.interact_predetermined(inc, v(0, ONE, 0), fx(ONE / 2), fx(0));
    assert_eq!(predet.w_r.y.raw, ONE);
    assert_eq!(predet.multiplier.x.raw, ONE / 2);
    assert!(mesh.focus());
    assert!(mesh.emit().is_none());
    assert_eq!(mesh.name(), "unit");
    assert_eq!(mesh.area().raw, ONE / 2);
}

#[test]
fn light_sample_packages_point_normal_and_densities() {
    let mesh = Mesh::new(String::from("unit"), TriMesh::new(vec![unit_triangle()]), Box::new(TestMaterial));
    let sample = mesh.sample_light(fx(0), fx(2000), fx(3000));
    // the one triangle: density 1/0.5, delta direction along the normal
    assert_eq!(sample.position_pdf.raw, 2 * ONE);
    assert_eq!(sample.direction_pdf.raw, SCALE);
    assert_eq!(sample.normal.z.raw, ONE);
    assert_eq!(sample.ray.direction().z.raw, ONE);
    // the sampled origin lies on the triangle plane z == 0
    assert_eq!(sample.ray.origin().z.raw, 0);
    let (dir, pdf) = mesh.sample_direction(v(0, 0, 0), v(0, 0, ONE), fx(500));
    assert_eq!(dir.z.raw, ONE);
    assert_eq!(pdf.raw, SCALE);
}

#[test]
fn sampled_locations_stay_on_the_triangle() {
    let t = unit_triangle();
    for s1 in [0i128, 2500, 5000, 9999] {
        for s2 in [0i128, 2500, 5000, 9999] {
            let (p, (a, b)) = t.sample_location(fx(s1), fx(s2));
            assert!(a.raw + b.raw <= SCALE);
            assert!(p.x.raw >= 0 && p.y.raw >= 0);
            assert!(p.x.raw + p.y.raw <= ONE);
            assert_eq!(p.z.raw, 0);
        }
    }
}

#[test]
fn plane_crossing_outside_the_triangle_is_no_hit() {
    // the ray crosses the z == 0 plane at (0.9, 0.9), beyond the hypotenuse
    let mesh = Mesh::new(String::from("unit"), TriMesh::new(vec![unit_triangle()]), Box::new(TestMaterial));
    let ray = Ray::new(v(9000, 9000, -ONE), v(0, 0, ONE));
    assert!(mesh.partial_hit(&ray));
    assert!(mesh.hit(&ray).is_none());
}

#[test]
fn ray_parallel_to_the_triangle_plane_is_no_hit() {
    let mesh = Mesh::new(String::from("unit"), TriMesh::new(vec![unit_triangle()]), Box::new(TestMaterial));
    let ray = Ray::new(v(2000, 2000, -ONE), v(ONE, 0, 0));
    assert!(mesh.hit(&ray).is_none());
}

#[test]
fn front_side_hit_keeps_the_stored_normal() {
    // approaching against the normal: front side, not inside
    let mesh = Mesh::new(String::from("unit"), TriMesh::new(vec![unit_triangle()]), Box::new(TestMaterial));
    let ray = Ray::new(v(2000, 2000, ONE), v(0, 0, -ONE));
    let inc = mesh.hit(&ray).expect("front side hit expected");
    assert_eq!(inc.distance().raw, ONE);
    assert_eq!(inc.normal().z.raw, ONE);
    assert!(!inc.inside());
}

#[test]
fn partial_bound_mirrors_mesh_extremes() {
    let mesh = TriMesh::new(vec![unit_triangle(), shifted_triangle(ONE, ONE)]);
    let pb = PartialBoundImpl::new(&mesh);
    let (mn, mx) = mesh.extreme_pts();
    assert_eq!(pb.min_pt, mn);
    assert_eq!(pb.max_pt, mx);
}
