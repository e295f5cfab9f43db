use raytracer::geometry::{max, min, reflect, refract, VecRT};
use raytracer::image::{channel_byte, decimal, pixel_direction, ppm_bytes, ppm_header, render};
use raytracer::light::Light;
use raytracer::material::Material;
use raytracer::object::{nearest_root, Object, Sphere};
use raytracer::scalar::Scalar;
use raytracer::tracer::{
    cast_ray, is_null_vector, light_contribution, scene_intersect, shade,
    shift_point_along_normal, RayIntersectInfo, Settings,
};
use std::cell::Cell;
use std::ops::{Add, Div, Mul, Neg, Sub};

#[derive(Clone, Copy, Debug, Default, PartialEq, PartialOrd)]
struct Real(f32);

impl Add for Real {
    type Output = Real;
    fn add(self, rhs: Real) -> Real {
        Real(self.0 + rhs.0)
    }
}

impl Sub for Real {
    type Output = Real;
    fn sub(self, rhs: Real) -> Real {
        Real(self.0 - rhs.0)
    }
}

impl Mul for Real {
    type Output = Real;
    fn mul(self, rhs: Real) -> Real {
        Real(self.0 * rhs.0)
    }
}

impl Div for Real {
    type Output = Real;
    fn div(self, rhs: Real) -> Real {
        Real(self.0 / rhs.0)
    }
}

impl Neg for Real {
    type Output = Real;
    fn neg(self) -> Real {
        Real(-self.0)
    }
}

impl Scalar for Real {
    fn one() -> Real {
        Real(1.0)
    }
    fn abs(self) -> Real {
        Real(self.0.abs())
    }
    fn sqrt(self) -> Real {
        Real(self.0.sqrt())
    }
    fn powf(self, exponent: Real) -> Real {
        Real(self.0.powf(exponent.0))
    }
    fn tan(self) -> Real {
        Real(self.0.tan())
    }
    fn from_u32(n: u32) -> Real {
        Real(n as f32)
    }
    fn to_u8(self) -> u8 {
        self.0.round() as u8
    }
}

type Vec3 = VecRT<Real>;

fn v3(x: f32, y: f32, z: f32) -> Vec3 {
    VecRT::new3f(Real(x), Real(y), Real(z))
}

fn parts(v: &Vec3) -> [f32; 3] {
    [v.index(0).0, v.index(1).0, v.index(2).0]
}

fn close(a: f32, b: f32) -> bool {
    (a - b).abs() <= 1e-5
}

fn close3(v: &Vec3, e: [f32; 3]) -> bool {
    let p = parts(v);
    close(p[0], e[0]) && close(p[1], e[1]) && close(p[2], e[2])
}

fn bytes(v: &Vec3) -> [u8; 3] {
    [channel_byte(*v.index(0)), channel_byte(*v.index(1)), channel_byte(*v.index(2))]
}

fn material(color: [f32; 3], albedo: [f32; 4], exponent: f32, index: f32) -> Material<Real> {
    Material::new(
        &v3(color[0], color[1], color[2]),
        &VecRT::from(&[Real(albedo[0]), Real(albedo[1]), Real(albedo[2]), Real(albedo[3])]),
        Real(exponent),
        Real(index),
    )
}

fn ivory() -> Material<Real> {
    material([0.4, 0.4, 0.3], [0.6, 0.3, 0.1, 0.0], 50.0, 1.0)
}

fn glass() -> Material<Real> {
    material([0.6, 0.7, 0.8], [0.0, 0.5, 0.1, 0.8], 125.0, 1.5)
}

fn rubber() -> Material<Real> {
    material([0.3, 0.1, 0.1], [0.9, 0.1, 0.0, 0.0], 10.0, 1.0)
}

fn mirror() -> Material<Real> {
    material([0.9, 1.0, 0.9], [0.0, 1.0, 0.8, 0.0], 1425.0, 1.0)
}

fn sphere(center: [f32; 3], radius: f32, m: &Material<Real>) -> Box<Sphere<Real>> {
    Box::new(Sphere::new(v3(center[0], center[1], center[2]), Real(radius), m))
}

fn light(p: [f32; 3], intensity: f32) -> Light<Real> {
    Light::new(&v3(p[0], p[1], p[2]), Real(intensity))
}

fn settings() -> Settings<Real> {
    Settings::new(&v3(0.2, 0.7, 0.8), 4, Real(0.001), Real(f32::INFINITY))
}

fn four_spheres() -> Vec<Box<Sphere<Real>>> {
    vec![
        sphere([-3.0, 0.0, -16.0], 2.0, &ivory()),
        sphere([-1.0, -1.5, -12.0], 2.0, &glass()),
        sphere([1.5, -0.5, -18.0], 3.0, &rubber()),
        sphere([7.0, 5.0, -18.0], 4.0, &mirror()),
    ]
}

fn three_lights() -> Vec<Light<Real>> {
    vec![
        light([-20.0, 20.0, 20.0], 1.5),
        light([30.0, 50.0, -25.0], 1.8),
        light([30.0, 20.0, 30.0], 1.7),
    ]
}

#[test]
fn magnitude_is_the_root_of_the_squares() {
    assert_eq!(v3(3.0, 4.0, 0.0).magnitude(), Real(5.0));
    assert_eq!(v3(0.0, 0.0, -2.0).magnitude(), Real(2.0));
}

#[test]
fn normalize_yields_unit_magnitude() {
    let samples = [
        [3.0f32, 4.0, 0.0],
        [1.0, 2.0, 3.0],
        [-3.0, 0.0, -16.0],
        [1e-3, -2e-3, 5e-4],
        [1e6, 3e5, -7e6],
    ];
    for s in samples.iter() {
        let n = v3(s[0], s[1], s[2]).normalize();
        assert!((n.magnitude().0 - 1.0).abs() <= 1e-6);
    }
    assert_eq!(parts(&v3(3.0, 4.0, 0.0).normalize()), [0.6, 0.8, 0.0]);
}

#[test]
fn reflect_turns_the_normal_component() {
    let n = v3(0.0, 1.0, 0.0);
    let i = v3(1.0, -1.0, 0.0).normalize();
    let r = reflect(&i, &n);
    assert_eq!(r.dot(&n), -i.dot(&n));
    let n = v3(1.0, 2.0, -2.0).normalize();
    let i = v3(-3.0, 0.5, 1.0).normalize();
    let r = reflect(&i, &n);
    assert!(close(r.dot(&n).0, -i.dot(&n).0));
    assert!(close(r.magnitude().0, 1.0));
}

#[test]
fn refract_bends_into_the_denser_medium() {
    let i = v3(1.0, -1.0, 0.0).normalize();
    let n = v3(0.0, 1.0, 0.0);
    let r = refract(&i, &n, Real(1.5));
    assert!(close3(&r, [0.47140452, -0.8819171, 0.0]));
}

#[test]
fn refract_gives_the_zero_vector_where_all_is_reflected() {
    // From inside the medium at a flat angle: k is negative.
    let i = v3(1.0, 0.2, 0.0).normalize();
    let n = v3(0.0, 1.0, 0.0);
    let r = refract(&i, &n, Real(1.5));
    assert_eq!(parts(&r), [0.0, 0.0, 0.0]);
    assert!(is_null_vector(&r));
    // From inside, nearly along the normal: k is positive and a ray leaves.
    let i = v3(0.1, 1.0, 0.0).normalize();
    let r = refract(&i, &n, Real(1.5));
    assert!(!is_null_vector(&r));
    assert!(close(r.magnitude().0, 1.0));
}

#[test]
fn refract_with_index_one_keeps_the_direction() {
    let n = v3(0.0, 1.0, 0.0);
    let r = refract(&v3(0.0, -1.0, 0.0), &n, Real(1.0));
    assert_eq!(parts(&r), [0.0, -1.0, 0.0]);
    let i = v3(1.0, -2.0, 0.5).normalize();
    let r = refract(&i, &n, Real(1.0));
    assert!(close3(&r, parts(&i)));
}

#[test]
fn max_and_min_of_reals() {
    assert_eq!(max(Real(0.0), Real(2.5)), Real(2.5));
    assert_eq!(max(Real(0.0), Real(-2.5)), Real(0.0));
    assert_eq!(min(Real(1.0), Real(2.5)), Real(1.0));
    assert_eq!(min(Real(1.0), Real(0.5)), Real(0.5));
    // Where neither is greater the second comes back.
    assert!(max(Real(0.0), Real(f32::NAN)).0.is_nan());
}

#[test]
fn nearest_root_picks_the_first_point_ahead() {
    assert_eq!(nearest_root(Real(10.0), Real(2.0)), (true, Real(8.0)));
    assert_eq!(nearest_root(Real(1.0), Real(2.0)), (true, Real(3.0)));
    assert_eq!(nearest_root(Real(-10.0), Real(2.0)), (false, Real(-8.0)));
    assert_eq!(nearest_root(Real(5.0), Real(0.0)), (true, Real(5.0)));
}

#[test]
fn sphere_is_hit_head_on_at_distance_less_radius() {
    let s = sphere([0.0, 0.0, -10.0], 2.0, &ivory());
    let hit = s.ray_intersect(&v3(0.0, 0.0, 0.0), &v3(0.0, 0.0, -1.0));
    assert_eq!(hit, (true, Real(8.0)));
    let s = sphere([-3.0, 0.0, -16.0], 2.0, &ivory());
    let dir = v3(-3.0, 0.0, -16.0).normalize();
    let (met, distance) = s.ray_intersect(&v3(0.0, 0.0, 0.0), &dir);
    assert!(met);
    assert!(close(distance.0, 265f32.sqrt() - 2.0));
    assert_eq!(distance, Real(14.278814));
}

#[test]
fn sphere_is_missed_where_the_ray_passes_by() {
    let s = sphere([3.0, 0.0, -10.0], 2.0, &ivory());
    let hit = s.ray_intersect(&v3(0.0, 0.0, 0.0), &v3(0.0, 0.0, -1.0));
    assert_eq!(hit, (false, Real(0.0)));
}

#[test]
fn sphere_is_hit_where_the_ray_grazes() {
    let s = sphere([2.0, 0.0, -10.0], 2.0, &ivory());
    let hit = s.ray_intersect(&v3(0.0, 0.0, 0.0), &v3(0.0, 0.0, -1.0));
    assert_eq!(hit, (true, Real(10.0)));
}

#[test]
fn sphere_from_inside_and_from_behind() {
    let s = sphere([0.0, 0.0, 0.0], 2.0, &ivory());
    let hit = s.ray_intersect(&v3(0.0, 0.0, 0.0), &v3(0.0, 0.0, -1.0));
    assert_eq!(hit, (true, Real(2.0)));
    let s = sphere([0.0, 0.0, 10.0], 2.0, &ivory());
    let (met, _) = s.ray_intersect(&v3(0.0, 0.0, 0.0), &v3(0.0, 0.0, -1.0));
    assert!(!met);
}

#[test]
fn sphere_hands_out_position_and_material() {
    let s = sphere([1.0, 2.0, 3.0], 2.0, &glass());
    assert_eq!(parts(s.get_position()), [1.0, 2.0, 3.0]);
    assert_eq!(s.get_material().refractive_index(), Real(1.5));
    assert_eq!(s.get_material().specular_exponent(), Real(125.0));
    assert_eq!(parts(s.get_material().color()), [0.6, 0.7, 0.8]);
    assert_eq!(*s.get_material().albedo().index(3), Real(0.8));
}

#[test]
fn material_clone_and_clone_from() {
    let a = ivory();
    let b = a.clone();
    assert_eq!(parts(b.color()), [0.4, 0.4, 0.3]);
    assert_eq!(b.albedo().len(), 4);
    let mut c = glass();
    c.clone_from(&a);
    assert_eq!(c.refractive_index(), Real(1.0));
    assert_eq!(*c.albedo().index(0), Real(0.6));
}

#[test]
fn light_hands_out_position_and_intensity() {
    let l = light([-20.0, 20.0, 20.0], 1.5);
    assert_eq!(parts(l.get_position()), [-20.0, 20.0, 20.0]);
    assert_eq!(l.get_intensity(), Real(1.5));
}

#[test]
fn settings_hand_out_their_parts() {
    let s = settings();
    assert_eq!(parts(s.background()), [0.2, 0.7, 0.8]);
    assert_eq!(s.max_bounces(), 4);
    assert_eq!(s.bias(), Real(0.001));
    assert_eq!(s.horizon(), Real(f32::INFINITY));
}

#[test]
fn shift_moves_to_the_side_of_the_direction() {
    let n = v3(0.0, 1.0, 0.0);
    let p = v3(1.0, 2.0, 3.0);
    let up = shift_point_along_normal(&v3(0.0, 1.0, 0.0), &n, &p, Real(0.5));
    assert_eq!(parts(&up), [1.0, 2.5, 3.0]);
    let down = shift_point_along_normal(&v3(0.0, -1.0, 0.0), &n, &p, Real(0.5));
    assert_eq!(parts(&down), [1.0, 1.5, 3.0]);
    let along = shift_point_along_normal(&v3(1.0, 0.0, 0.0), &n, &p, Real(0.5));
    assert_eq!(parts(&along), [1.0, 2.5, 3.0]);
}

#[test]
fn scene_without_a_hit_reports_nothing() {
    let objs = four_spheres();
    let info = scene_intersect(&v3(0.0, 0.0, 0.0), &v3(0.0, 0.0, 1.0), &objs, Real(f32::INFINITY));
    assert!(!info.intersects_with_scene());
    assert_eq!(parts(info.first_intersect_point()), [0.0, 0.0, 0.0]);
    assert_eq!(parts(info.first_intersect_normal()), [0.0, 0.0, 0.0]);
    let none: Vec<Box<Sphere<Real>>> = Vec::new();
    let empty = scene_intersect(&v3(0.0, 0.0, 0.0), &v3(0.0, 0.0, -1.0), &none, Real(f32::INFINITY));
    assert!(!empty.intersects_with_scene());
}

#[test]
fn scene_reports_point_normal_and_material() {
    let objs = four_spheres();
    let o = v3(0.0, 0.0, 0.0);
    let d = v3(0.0, 0.0, -1.0);
    let one = [sphere([0.0, 0.0, -10.0], 2.0, &glass())];
    let info = scene_intersect(&o, &d, &one, Real(f32::INFINITY));
    assert!(info.intersects_with_scene());
    assert_eq!(parts(info.first_intersect_point()), [0.0, 0.0, -8.0]);
    assert_eq!(parts(info.first_intersect_normal()), [0.0, 0.0, 1.0]);
    assert_eq!(info.closest_material().refractive_index(), Real(1.5));
    let dir = v3(-1.0, -1.5, -12.0).normalize();
    let info = scene_intersect(&o, &dir, &objs, Real(f32::INFINITY));
    assert!(info.intersects_with_scene());
    assert_eq!(info.closest_material().specular_exponent(), Real(125.0));
    assert!(close(info.first_intersect_normal().magnitude().0, 1.0));
}

#[test]
fn scene_keeps_the_first_of_two_at_one_distance() {
    let o = v3(0.0, 0.0, 0.0);
    let d = v3(0.0, 0.0, -1.0);
    let far = Real(f32::INFINITY);
    let both = [sphere([0.0, 0.0, -10.0], 2.0, &ivory()), sphere([0.0, 0.0, -10.0], 2.0, &glass())];
    let info = scene_intersect(&o, &d, &both, far);
    assert_eq!(info.closest_material().specular_exponent(), Real(50.0));
    let both = [sphere([0.0, 0.0, -10.0], 2.0, &glass()), sphere([0.0, 0.0, -10.0], 2.0, &ivory())];
    let info = scene_intersect(&o, &d, &both, far);
    assert_eq!(info.closest_material().specular_exponent(), Real(125.0));
    // Spheres of different size that overlap and are met at one distance.
    let both = [sphere([0.0, 0.0, -10.0], 2.0, &rubber()), sphere([0.0, 0.0, -11.0], 3.0, &mirror())];
    let info = scene_intersect(&o, &d, &both, far);
    assert_eq!(info.closest_material().specular_exponent(), Real(10.0));
    let both = [sphere([0.0, 0.0, -11.0], 3.0, &mirror()), sphere([0.0, 0.0, -10.0], 2.0, &rubber())];
    let info = scene_intersect(&o, &d, &both, far);
    assert_eq!(info.closest_material().specular_exponent(), Real(1425.0));
}

#[test]
fn scene_tie_goes_to_the_first_object() {
    let a = sphere([0.0, 0.0, -10.0], 2.0, &ivory());
    let b = sphere([0.0, 0.0, -10.0], 2.0, &glass());
    let cfg = settings();
    let o = v3(0.0, 0.0, 0.0);
    let d = v3(0.0, 0.0, -1.0);
    let first = cast_ray(&o, &d, &[], &[a, b], 5, &cfg);
    assert_eq!(parts(&first), [0.2, 0.7, 0.8]);
    let a = sphere([0.0, 0.0, -10.0], 2.0, &rubber());
    let b = sphere([0.0, 0.0, -10.0], 2.0, &mirror());
    let l = [light([0.0, 0.0, 0.0], 1.0)];
    // Rubber mirrors nothing, a mirror has no diffuse share: the colour tells
    // which of the two was chosen.
    let rubber_first = cast_ray(&o, &d, &l, &[a, b], 1, &cfg);
    let a = sphere([0.0, 0.0, -10.0], 2.0, &rubber());
    let b = sphere([0.0, 0.0, -10.0], 2.0, &mirror());
    let mirror_first = cast_ray(&o, &d, &l, &[b, a], 1, &cfg);
    assert!(close3(&rubber_first, [0.37, 0.19, 0.19]));
    assert!(close3(&mirror_first, [1.16, 1.56, 1.64]));
}

#[test]
fn scene_picks_the_nearest_whatever_the_order() {
    let cfg = settings();
    let o = v3(0.0, 0.0, 0.0);
    let d = v3(0.0, 0.0, -1.0);
    let l = [light([0.0, 0.0, 0.0], 1.0)];
    let near = sphere([0.0, 0.0, -10.0], 2.0, &rubber());
    let far = sphere([0.0, 0.0, -20.0], 2.0, &mirror());
    let one = cast_ray(&o, &d, &l, &[near, far], 1, &cfg);
    let near = sphere([0.0, 0.0, -10.0], 2.0, &rubber());
    let far = sphere([0.0, 0.0, -20.0], 2.0, &mirror());
    let other = cast_ray(&o, &d, &l, &[far, near], 1, &cfg);
    assert_eq!(parts(&one), parts(&other));
    assert!(close3(&one, [0.37, 0.19, 0.19]));
}

#[test]
fn horizon_bounds_what_is_met() {
    let objs = [sphere([0.0, 0.0, -10.0], 2.0, &rubber())];
    let cfg = Settings::new(&v3(0.2, 0.7, 0.8), 4, Real(0.001), Real(8.0));
    let c = cast_ray(&v3(0.0, 0.0, 0.0), &v3(0.0, 0.0, -1.0), &[], &objs, 1, &cfg);
    assert_eq!(parts(&c), [0.2, 0.7, 0.8]);
    let cfg = Settings::new(&v3(0.2, 0.7, 0.8), 4, Real(0.001), Real(8.5));
    let c = cast_ray(&v3(0.0, 0.0, 0.0), &v3(0.0, 0.0, -1.0), &[], &objs, 1, &cfg);
    assert_eq!(parts(&c), [0.0, 0.0, 0.0]);
}

fn info_at_origin_facing_up(m: Material<Real>) -> RayIntersectInfo<Real> {
    RayIntersectInfo::from((true, m, v3(0.0, 0.0, 0.0), v3(0.0, 1.0, 0.0)))
}

#[test]
fn light_behind_an_object_adds_nothing() {
    let info = info_at_origin_facing_up(rubber());
    let l = light([0.0, 10.0, 0.0], 1.5);
    let objs = [sphere([0.0, 5.0, 0.0], 1.0, &ivory())];
    let dir = v3(0.0, -1.0, 0.0);
    let before = (Real(0.25), Real(0.125));
    let after = light_contribution(before, &l, &info, &dir, &objs, &settings());
    assert_eq!(after, before);
}

#[test]
fn light_in_sight_adds_intensity_times_cosine() {
    let dir = v3(0.0, -1.0, 0.0);
    let none: [Box<Sphere<Real>>; 0] = [];
    let before = (Real(0.25), Real(0.125));
    // Straight above: the cosine is one.
    let info = info_at_origin_facing_up(rubber());
    let l = light([0.0, 10.0, 0.0], 1.5);
    let after = light_contribution(before, &l, &info, &dir, &none, &settings());
    assert_eq!(after.0, Real(1.75));
    // At an angle of sixty degrees: cosine one half, in the numbers of the type.
    let l = light([3f32.sqrt() * 5.0, 5.0, 0.0], 1.5);
    let cosine = v3(3f32.sqrt() * 5.0, 5.0, 0.0).normalize().dot(&v3(0.0, 1.0, 0.0));
    let after = light_contribution(before, &l, &info, &dir, &none, &settings());
    assert_eq!(after.0, Real(0.25) + Real(1.5) * cosine);
    assert!(close(after.0.0, 1.0));
    // Below the surface: the cosine counts as zero.
    let l = light([0.0, -10.0, 0.0], 1.5);
    let after = light_contribution(before, &l, &info, &dir, &none, &settings());
    assert_eq!(after.0, Real(0.25));
    // A sphere beyond the light does not shade the point.
    let l = light([0.0, 10.0, 0.0], 1.5);
    let beyond = [sphere([0.0, 20.0, 0.0], 1.0, &ivory())];
    let after = light_contribution(before, &l, &info, &dir, &beyond, &settings());
    assert_eq!(after.0, Real(1.75));
}

#[test]
fn highlight_is_the_cosine_to_the_exponent() {
    let info = info_at_origin_facing_up(rubber());
    let none: [Box<Sphere<Real>>; 0] = [];
    let l = light([0.0, 10.0, 0.0], 2.0);
    // The mirrored light direction is (0, -1, 0): seen along it, the cosine is one.
    let after = light_contribution((Real(0.0), Real(0.0)), &l, &info, &v3(0.0, -1.0, 0.0), &none, &settings());
    assert_eq!(after.1, Real(2.0));
    let after = light_contribution((Real(0.0), Real(0.0)), &l, &info, &v3(0.0, 1.0, 0.0), &none, &settings());
    assert_eq!(after.1, Real(0.0));
    let dir = v3(0.6, -0.8, 0.0);
    let after = light_contribution((Real(0.0), Real(0.0)), &l, &info, &dir, &none, &settings());
    assert!(close(after.1.0, 2.0 * 0.8f32.powf(10.0)));
}

#[test]
fn shade_adds_the_four_parts() {
    let m = material([0.5, 0.25, 1.0], [0.5, 0.25, 0.0, 0.0], 1.0, 1.0);
    let c = shade(&m, Real(2.0), Real(4.0), &v3(0.125, 0.0, 0.0), &v3(0.0, 0.0625, 0.0));
    assert_eq!(parts(&c), [0.5 + 1.0 + 0.125, 0.25 + 1.0 + 0.0625, 1.0 + 1.0]);
    // Nothing is clamped.
    let c = shade(&m, Real(20.0), Real(0.0), &v3(0.0, 0.0, 0.0), &v3(0.0, 0.0, 0.0));
    assert_eq!(parts(&c), [5.0, 2.5, 10.0]);
}

struct Counted {
    inner: Sphere<Real>,
    asked: Cell<u32>,
}

impl Object<Real> for Counted {
    fn ray_intersect(&self, orig: &Vec3, dir: &Vec3) -> (bool, Real) {
        self.asked.set(self.asked.get() + 1);
        self.inner.ray_intersect(orig, dir)
    }
    fn get_position(&self) -> &Vec3 {
        self.inner.get_position()
    }
    fn get_material(&self) -> &Material<Real> {
        self.inner.get_material()
    }
}

fn counted(center: [f32; 3], radius: f32, m: &Material<Real>) -> Box<Counted> {
    Box::new(Counted {
        inner: Sphere::new(v3(center[0], center[1], center[2]), Real(radius), m),
        asked: Cell::new(0),
    })
}

#[test]
fn mirrors_face_to_face_end_after_four_bounces() {
    let objs = [counted([0.0, 0.0, -5.0], 2.0, &mirror()), counted([0.0, 0.0, 5.0], 2.0, &mirror())];
    let cfg = settings();
    let c = cast_ray(&v3(0.0, 0.0, 0.0), &v3(0.0, 0.0, -1.0), &[], &objs, 1, &cfg);
    // Without lights each cast asks each object once: the first cast and four
    // mirrored ones.
    assert_eq!(objs[0].asked.get(), 5);
    assert_eq!(objs[1].asked.get(), 5);
    // The last ray has the colour of the background, weakened at each mirror.
    assert!(close3(&c, [0.2 * 0.4096, 0.7 * 0.4096, 0.8 * 0.4096]));
}

#[test]
fn bounce_limit_of_zero_casts_once() {
    let objs = [counted([0.0, 0.0, -5.0], 2.0, &mirror()), counted([0.0, 0.0, 5.0], 2.0, &mirror())];
    let cfg = Settings::new(&v3(0.2, 0.7, 0.8), 0, Real(0.001), Real(f32::INFINITY));
    let c = cast_ray(&v3(0.0, 0.0, 0.0), &v3(0.0, 0.0, -1.0), &[], &objs, 1, &cfg);
    assert_eq!(objs[0].asked.get(), 1);
    assert_eq!(parts(&c), [0.2, 0.7, 0.8]);
}

#[test]
fn ray_beyond_the_bounce_limit_has_the_background_colour() {
    let objs = four_spheres();
    let lights = three_lights();
    let dir = v3(-3.0, 0.0, -16.0).normalize();
    let c = cast_ray(&v3(0.0, 0.0, 0.0), &dir, &lights, &objs, 5, &settings());
    assert_eq!(parts(&c), [0.2, 0.7, 0.8]);
}

#[test]
fn ray_that_meets_nothing_has_the_background_colour() {
    let objs = four_spheres();
    let lights = three_lights();
    let dir = v3(0.0, 10.0, -1.0).normalize();
    let c = cast_ray(&v3(0.0, 0.0, 0.0), &dir, &lights, &objs, 1, &settings());
    assert_eq!(parts(&c), [0.2, 0.7, 0.8]);
    assert_eq!(bytes(&c), [51, 179, 204]);
    let bright = Settings::new(&v3(1.5, -0.25, 7.0), 4, Real(0.001), Real(f32::INFINITY));
    let c = cast_ray(&v3(0.0, 0.0, 0.0), &dir, &lights, &objs, 1, &bright);
    assert_eq!(parts(&c), [1.5, -0.25, 7.0]);
}

#[test]
fn single_ivory_sphere_under_one_light() {
    let objs = [sphere([-3.0, 0.0, -16.0], 2.0, &ivory())];
    let lights = [light([-20.0, 20.0, 20.0], 1.5)];
    let dir = v3(-3.0, 0.0, -16.0).normalize();
    let c = cast_ray(&v3(0.0, 0.0, 0.0), &dir, &lights, &objs, 1, &settings());
    assert!(close3(&c, [0.27251008, 0.32251006, 0.2693826]));
    assert_eq!(bytes(&c), [69, 82, 69]);
}

#[test]
fn unit_index_adds_no_refraction_whatever_its_share() {
    let lights = [light([-20.0, 20.0, 20.0], 1.5)];
    let dir = v3(-3.0, 0.0, -16.0).normalize();
    let without = [sphere([-3.0, 0.0, -16.0], 2.0, &ivory())];
    let with_share = [sphere(
        [-3.0, 0.0, -16.0],
        2.0,
        &material([0.4, 0.4, 0.3], [0.6, 0.3, 0.1, 0.9], 50.0, 1.0),
    )];
    let a = cast_ray(&v3(0.0, 0.0, 0.0), &dir, &lights, &without, 1, &settings());
    let b = cast_ray(&v3(0.0, 0.0, 0.0), &dir, &lights, &with_share, 1, &settings());
    assert_eq!(parts(&a), parts(&b));
}

#[test]
fn four_spheres_under_three_lights() {
    let objs = four_spheres();
    let lights = three_lights();
    let cfg = settings();
    let o = v3(0.0, 0.0, 0.0);
    let glass_seen = cast_ray(&o, &v3(-1.0, -1.5, -12.0).normalize(), &lights, &objs, 1, &cfg);
    assert!(close3(&glass_seen, [0.16224001, 0.56784004, 0.64896005]));
    assert_eq!(bytes(&glass_seen), [41, 145, 165]);
    let mirror_seen = cast_ray(&o, &v3(7.0, 5.0, -18.0).normalize(), &lights, &objs, 1, &cfg);
    assert!(close3(&mirror_seen, [0.16, 0.56, 0.64]));
    assert_eq!(bytes(&mirror_seen), [41, 143, 163]);
    let rubber_seen = cast_ray(&o, &v3(1.5, -0.5, -18.0).normalize(), &lights, &objs, 1, &cfg);
    assert!(close3(&rubber_seen, [0.7033955, 0.253667, 0.253667]));
    assert_eq!(bytes(&rubber_seen), [179, 65, 65]);
}

#[test]
fn pixel_directions_span_the_view() {
    let tan_fov = Real((std::f32::consts::PI / 6.0).tan());
    let middle = pixel_direction(0, 0, 1, 1, tan_fov, Real(1.0));
    assert_eq!(parts(&middle), [0.0, 0.0, -1.0]);
    let top_left = pixel_direction(0, 0, 2, 2, tan_fov, Real(1.0));
    let p = parts(&top_left);
    assert!(p[0] < 0.0 && p[1] > 0.0 && p[2] < 0.0);
    assert!(close(p[0], -p[1]));
    let bottom_right = pixel_direction(1, 1, 2, 2, tan_fov, Real(1.0));
    assert_eq!(parts(&bottom_right), [-p[0], -p[1], p[2]]);
}

#[test]
fn render_fills_the_frame_row_by_row() {
    let objs = four_spheres();
    let lights = three_lights();
    let frame = render(&lights, &objs, 4, 3, Real(std::f32::consts::PI / 3.0), &settings());
    assert_eq!(frame.len(), 12);
    let expected: [[u8; 3]; 12] = [
        [51, 179, 204],
        [51, 179, 204],
        [51, 179, 204],
        [41, 143, 163],
        [51, 179, 204],
        [53, 145, 160],
        [167, 58, 58],
        [51, 179, 204],
        [51, 179, 204],
        [51, 179, 204],
        [51, 179, 204],
        [51, 179, 204],
    ];
    for k in 0..12 {
        assert_eq!(bytes(&frame[k]), expected[k]);
    }
    let none = render(&lights, &objs, 0, 3, Real(1.0), &settings());
    assert_eq!(none.len(), 0);
}

#[test]
fn render_of_one_pixel_looks_down_the_axis() {
    let objs = [sphere([0.0, 0.0, -16.0], 2.0, &ivory())];
    let lights = [light([-20.0, 20.0, 20.0], 1.5)];
    let cfg = settings();
    let frame = render(&lights, &objs, 1, 1, Real(std::f32::consts::PI / 3.0), &cfg);
    assert_eq!(frame.len(), 1);
    let direct = cast_ray(&v3(0.0, 0.0, 0.0), &v3(0.0, 0.0, -1.0), &lights, &objs, 1, &cfg);
    assert_eq!(parts(&frame[0]), parts(&direct));
}

#[test]
fn channels_become_bytes() {
    assert_eq!(channel_byte(Real(-0.5)), 0);
    assert_eq!(channel_byte(Real(0.0)), 0);
    assert_eq!(channel_byte(Real(0.2)), 51);
    assert_eq!(channel_byte(Real(0.5)), 128);
    assert_eq!(channel_byte(Real(0.999)), 255);
    assert_eq!(channel_byte(Real(1.0)), 255);
    assert_eq!(channel_byte(Real(7.25)), 255);
}

#[test]
fn decimal_digits() {
    assert_eq!(decimal(0), b"0".to_vec());
    assert_eq!(decimal(7), b"7".to_vec());
    assert_eq!(decimal(10), b"10".to_vec());
    assert_eq!(decimal(768), b"768".to_vec());
    assert_eq!(decimal(1024), b"1024".to_vec());
    assert_eq!(decimal(4294967295), b"4294967295".to_vec());
}

fn head(width: &str, height: &str) -> Vec<u8> {
    let mut bytes = vec![b'P', b'6', b'\n'];
    bytes.extend_from_slice(width.as_bytes());
    bytes.push(b' ');
    bytes.extend_from_slice(height.as_bytes());
    bytes.extend_from_slice(b"\n255\n");
    bytes
}

#[test]
fn pixmap_has_head_and_three_bytes_to_a_pixel() {
    assert_eq!(ppm_header(1024, 768), head("1024", "768"));
    let frame = [v3(0.2, 0.7, 0.8), v3(1.5, -1.0, 0.5)];
    let out = ppm_bytes(&frame, 2, 1);
    let mut expected = head("2", "1");
    expected.extend_from_slice(&[51, 179, 204, 255, 0, 128]);
    assert_eq!(out, expected);
    let none: [Vec3; 0] = [];
    assert_eq!(ppm_bytes(&none, 0, 0), head("0", "0"));
}
