//! Casting rays: what a ray meets first, and the colour that comes back along it.

use vstd::prelude::*;
use vstd::std_specs::ops::{AddSpec, MulSpec};
use core::ops::{Add, Sub, Mul};
use crate::scalar::{Scalar, total, exact, exact_arithmetic, linear, zero_of, one_of, powf_of};
use crate::scalar::{lt, same};
use crate::scalar::{zero, one, powf};
use crate::geometry::{VecRT, repeated, sums, differences, scaled, dot_of, normalize_of};
use crate::geometry::{magnitude_of, reflect_of, refract_of, max_of, reflect, refract, max};
use crate::material::{Material, MaterialView};
use crate::light::{Light, LightView};
use crate::object::Object;

verus! {

/// What a tracer holds fixed while it renders.
pub struct Settings<T> {
    background: VecRT<T>,
    max_bounces: u32,
    bias: T,
    horizon: T,
}

/// The settings as plain values.
pub ghost struct SettingsView<T> {
    /// The colour of a ray that meets nothing.
    pub background: Seq<T>,
    /// How many times a ray may be mirrored or refracted.
    pub max_bounces: nat,
    /// How far a secondary ray starts from the surface that it leaves.
    pub bias: T,
    /// The distance from which on nothing is met.
    pub horizon: T,
}

impl<T> View for Settings<T> {
    type V = SettingsView<T>;

    closed spec fn view(&self) -> SettingsView<T> {
        SettingsView {
            background: self.background@,
            max_bounces: self.max_bounces as nat,
            bias: self.bias,
            horizon: self.horizon,
        }
    }
}

impl<T> Settings<T> {
    /// The background has three components, and the depth after the last bounce
    /// can be counted.
    #[verifier::type_invariant]
    closed spec fn well_formed(&self) -> bool {
        &&& self.background@.len() == 3
        &&& self.max_bounces < u32::MAX
    }
}

impl<T: Copy> Settings<T> {
    /// Settings with the background colour `background`, a vector of three
    /// components, at most `max_bounces` bounces, secondary rays that start
    /// `bias` off the surface, and nothing met from the distance `horizon` on.
    pub fn new(background: &VecRT<T>, max_bounces: u32, bias: T, horizon: T) -> (r: Self)
        requires
            background@.len() == 3,
            max_bounces < u32::MAX,
        ensures
            r@ == (SettingsView {
                background: background@,
                max_bounces: max_bounces as nat,
                bias,
                horizon,
            }),
    {
        Settings { background: background.clone(), max_bounces, bias, horizon }
    }

    /// The colour of a ray that meets nothing.
    pub fn background(&self) -> (r: &VecRT<T>)
        ensures
            r@ == self@.background,
            r@.len() == 3,
    {
        proof {
            use_type_invariant(self);
        }
        &self.background
    }

    /// How many times a ray may be mirrored or refracted.
    pub fn max_bounces(&self) -> (r: u32)
        ensures
            r == self@.max_bounces,
            r < u32::MAX,
    {
        proof {
            use_type_invariant(self);
        }
        self.max_bounces
    }

    /// How far a secondary ray starts from the surface that it leaves.
    pub fn bias(&self) -> (r: T)
        ensures
            r == self@.bias,
    {
        self.bias
    }

    /// The distance from which on nothing is met.
    pub fn horizon(&self) -> (r: T)
        ensures
            r == self@.horizon,
    {
        self.horizon
    }
}

/// What a ray met first in a scene, if anything.
pub struct RayIntersectInfo<T> {
    intersects_with_scene: bool,
    closest_material: Material<T>,
    first_intersect_point: VecRT<T>,
    // The unit vector from the position of the surface to the point where the
    // ray met it.
    first_intersect_normal: VecRT<T>,
}

/// What a ray met, as plain values.
pub ghost struct RayIntersectInfoView<T> {
    /// Whether the ray met anything.
    pub hit: bool,
    /// What the surface is made of.
    pub material: MaterialView<T>,
    /// Where the ray met it.
    pub point: Seq<T>,
    /// The normal of the surface there.
    pub normal: Seq<T>,
}

impl<T> View for RayIntersectInfo<T> {
    type V = RayIntersectInfoView<T>;

    closed spec fn view(&self) -> RayIntersectInfoView<T> {
        RayIntersectInfoView {
            hit: self.intersects_with_scene,
            material: self.closest_material@,
            point: self.first_intersect_point@,
            normal: self.first_intersect_normal@,
        }
    }
}

impl<T> RayIntersectInfo<T> {
    /// The point and the normal have three components.
    #[verifier::type_invariant]
    closed spec fn well_formed(&self) -> bool {
        &&& self.first_intersect_point@.len() == 3
        &&& self.first_intersect_normal@.len() == 3
    }

    /// The four parts in their order: whether anything was met, the material, the
    /// point and the normal, both of three components.
    pub fn from(tup: (bool, Material<T>, VecRT<T>, VecRT<T>)) -> (r: Self)
        requires
            tup.2@.len() == 3,
            tup.3@.len() == 3,
        ensures
            r@ == (RayIntersectInfoView {
                hit: tup.0,
                material: tup.1@,
                point: tup.2@,
                normal: tup.3@,
            }),
    {
        RayIntersectInfo {
            intersects_with_scene: tup.0,
            closest_material: tup.1,
            first_intersect_point: tup.2,
            first_intersect_normal: tup.3,
        }
    }

    /// Whether the ray met anything.
    pub fn intersects_with_scene(&self) -> (r: bool)
        ensures
            r == self@.hit,
    {
        self.intersects_with_scene
    }

    /// What the surface that the ray met is made of.
    pub fn closest_material(&self) -> (r: &Material<T>)
        ensures
            r@ == self@.material,
    {
        &self.closest_material
    }

    /// Where the ray met the surface, a point of three components.
    pub fn first_intersect_point(&self) -> (r: &VecRT<T>)
        ensures
            r@ == self@.point,
            r@.len() == 3,
    {
        proof {
            use_type_invariant(self);
        }
        &self.first_intersect_point
    }

    /// The normal of the surface where the ray met it, of three components.
    pub fn first_intersect_normal(&self) -> (r: &VecRT<T>)
        ensures
            r@ == self@.normal,
            r@.len() == 3,
    {
        proof {
            use_type_invariant(self);
        }
        &self.first_intersect_normal
    }
}

/// `point` moved by `bias` along `normal`, to the side that `dir` points to:
/// against the normal where `dir` runs against it, with it otherwise.
pub open spec fn shift_of<T: Scalar>(dir: Seq<T>, normal: Seq<T>, point: Seq<T>, bias: T) -> Seq<
    T,
> {
    if lt(dot_of(dir, normal), zero_of::<T>()) {
        differences(point, scaled(normal, bias))
    } else {
        sums(point, scaled(normal, bias))
    }
}

/// Where a ray that leaves a surface at `point` in direction `dir` starts: a
/// little off the surface, on the side that the ray heads to, so that it does not
/// meet the surface it leaves.
pub fn shift_point_along_normal<T: Scalar>(
    dir: &VecRT<T>,
    normal: &VecRT<T>,
    point: &VecRT<T>,
    bias: T,
) -> (r: VecRT<T>)
    requires
        total::<T>(),
        dir@.len() == normal@.len(),
        point@.len() == normal@.len(),
    ensures
        r@.len() == point@.len(),
        exact_arithmetic::<T>() ==> r@ == shift_of(dir@, normal@, point@, bias),
{
    let z: T = zero();
    let step = normal.mul(bias);
    if dir.dot(normal) < z {
        point.sub(&step)
    } else {
        point.add(&step)
    }
}

/// The objects of a scene each have a position of three components.
pub open spec fn well_placed<T: Scalar, O: Object<T>>(objs: Seq<Box<O>>) -> bool {
    forall|i: int| 0 <= i < objs.len() ==> (#[trigger] objs[i]).position_of().len() == 3
}

/// Of the first `n` objects, the one that the ray from `orig` along `dir` meets
/// nearest, and the distance to it. An object counts where it is met at less than
/// the distance so far, which starts at `horizon`: of two at one distance the
/// earlier stays.
pub open spec fn nearest_upto<T: Scalar, O: Object<T>>(
    orig: Seq<T>,
    dir: Seq<T>,
    objs: Seq<Box<O>>,
    horizon: T,
    n: nat,
) -> (Option<int>, T)
    decreases n,
{
    if n == 0 {
        (None, horizon)
    } else {
        let before = nearest_upto(orig, dir, objs, horizon, (n - 1) as nat);
        let here = objs[n - 1].intersect_of(orig, dir);
        if here.0 && lt(here.1, before.1) {
            (Some(n - 1), here.1)
        } else {
            before
        }
    }
}

/// The object at `j` is met by the ray from `orig` along `dir` at less than
/// `horizon`.
pub open spec fn in_sight<T: Scalar, O: Object<T>>(
    orig: Seq<T>,
    dir: Seq<T>,
    objs: Seq<Box<O>>,
    horizon: T,
    j: int,
) -> bool {
    objs[j].intersect_of(orig, dir).0 && lt(objs[j].intersect_of(orig, dir).1, horizon)
}

/// Of two objects met at one distance the first in the order of the scene stays:
/// the object chosen among the first `n` is met at the distance that is reported,
/// and no later one of them is met at less. Where none is chosen, none is in sight.
pub proof fn lemma_nearest_keeps_the_first<T: Scalar, O: Object<T>>(
    orig: Seq<T>,
    dir: Seq<T>,
    objs: Seq<Box<O>>,
    horizon: T,
    n: nat,
)
    requires
        n <= objs.len(),
    ensures
        match nearest_upto(orig, dir, objs, horizon, n).0 {
            None => {
                &&& nearest_upto(orig, dir, objs, horizon, n).1 == horizon
                &&& forall|j: int| 0 <= j < n ==> !in_sight(orig, dir, objs, horizon, j)
            },
            Some(k) => {
                &&& 0 <= k < n
                &&& objs[k].intersect_of(orig, dir) == (
                    true,
                    nearest_upto(orig, dir, objs, horizon, n).1,
                )
                &&& forall|j: int|
                    k < j < n ==> !in_sight(
                        orig,
                        dir,
                        objs,
                        nearest_upto(orig, dir, objs, horizon, n).1,
                        j,
                    )
            },
        },
    decreases n,
{
    if n > 0 {
        lemma_nearest_keeps_the_first(orig, dir, objs, horizon, (n - 1) as nat);
    }
}

/// Where the order of `T` is linear, the object chosen among the first `n` is the
/// first of the nearest in sight: it is in sight, every earlier one in sight is
/// met at more, and no other in sight is met at less.
pub proof fn lemma_nearest_is_first_of_the_nearest<T: Scalar, O: Object<T>>(
    orig: Seq<T>,
    dir: Seq<T>,
    objs: Seq<Box<O>>,
    horizon: T,
    n: nat,
)
    requires
        linear::<T>(),
        n <= objs.len(),
    ensures
        forall|j: int|
            0 <= j < n && in_sight(orig, dir, objs, horizon, j) ==> !lt(
                objs[j].intersect_of(orig, dir).1,
                nearest_upto(orig, dir, objs, horizon, n).1,
            ),
        match nearest_upto(orig, dir, objs, horizon, n).0 {
            None => forall|j: int| 0 <= j < n ==> !in_sight(orig, dir, objs, horizon, j),
            Some(k) => {
                &&& 0 <= k < n
                &&& in_sight(orig, dir, objs, horizon, k)
                &&& objs[k].intersect_of(orig, dir).1 == nearest_upto(orig, dir, objs, horizon, n).1
                &&& forall|j: int|
                    0 <= j < k && in_sight(orig, dir, objs, horizon, j) ==> lt(
                        objs[k].intersect_of(orig, dir).1,
                        objs[j].intersect_of(orig, dir).1,
                    )
            },
        },
    decreases n,
{
    if n > 0 {
        lemma_nearest_is_first_of_the_nearest(orig, dir, objs, horizon, (n - 1) as nat);
        lemma_nearest_keeps_the_first(orig, dir, objs, horizon, (n - 1) as nat);
    }
}

/// What is reported of a ray that met nothing: zeros throughout.
pub open spec fn nothing_met<T: Scalar>() -> RayIntersectInfoView<T> {
    RayIntersectInfoView {
        hit: false,
        material: MaterialView {
            color: repeated(zero_of::<T>(), 3),
            albedo: repeated(zero_of::<T>(), 4),
            specular_exponent: zero_of::<T>(),
            refractive_index: zero_of::<T>(),
        },
        point: repeated(zero_of::<T>(), 3),
        normal: repeated(zero_of::<T>(), 3),
    }
}

/// What is reported of a ray from `orig` along `dir` that met `obj` at
/// `distance`: the point at that distance along the ray, and as the normal the
/// unit vector from the position of the object to that point.
pub open spec fn met_at<T: Scalar, O: Object<T>>(
    orig: Seq<T>,
    dir: Seq<T>,
    obj: Box<O>,
    distance: T,
) -> RayIntersectInfoView<T> {
    let point = sums(orig, scaled(dir, distance));
    RayIntersectInfoView {
        hit: true,
        material: obj.material_of(),
        point,
        normal: normalize_of(differences(point, obj.position_of())),
    }
}

/// What the ray from `orig` along `dir` meets first among the first `n` objects.
pub open spec fn scene_intersect_upto<T: Scalar, O: Object<T>>(
    orig: Seq<T>,
    dir: Seq<T>,
    objs: Seq<Box<O>>,
    horizon: T,
    n: nat,
) -> RayIntersectInfoView<T> {
    let (winner, distance) = nearest_upto(orig, dir, objs, horizon, n);
    match winner {
        None => nothing_met(),
        Some(k) => met_at(orig, dir, objs[k], distance),
    }
}

/// What the ray from `orig` along `dir` meets first in the scene `objs`.
pub open spec fn scene_intersect_of<T: Scalar, O: Object<T>>(
    orig: Seq<T>,
    dir: Seq<T>,
    objs: Seq<Box<O>>,
    horizon: T,
) -> RayIntersectInfoView<T> {
    scene_intersect_upto(orig, dir, objs, horizon, objs.len())
}

/// What the ray from `orig` along the unit vector `dir` meets first in the scene:
/// the nearest of the objects that it meets at less than `horizon`, and of several
/// at one distance the first in the order of `objs`.
pub fn scene_intersect<T: Scalar, O: Object<T>>(
    orig: &VecRT<T>,
    dir: &VecRT<T>,
    objs: &[Box<O>],
    horizon: T,
) -> (r: RayIntersectInfo<T>)
    requires
        total::<T>(),
        orig@.len() == 3,
        dir@.len() == 3,
        well_placed(objs@),
    ensures
        r@.point.len() == 3,
        r@.normal.len() == 3,
        r@.material.color.len() == 3,
        r@.material.albedo.len() == 4,
        exact::<T>() ==> r@ == scene_intersect_of(orig@, dir@, objs@, horizon),
{
    let mut distance = horizon;
    let mut hit = false;
    let mut material = Material::new(&VecRT::new(3), &VecRT::new(4), zero(), zero());
    let mut point: VecRT<T> = VecRT::new(3);
    let mut normal: VecRT<T> = VecRT::new(3);
    let mut i: usize = 0;
    while i < objs.len()
        invariant
            i <= objs@.len(),
            total::<T>(),
            orig@.len() == 3,
            dir@.len() == 3,
            well_placed(objs@),
            point@.len() == 3,
            normal@.len() == 3,
            material@.color.len() == 3,
            material@.albedo.len() == 4,
            exact::<T>() ==> distance == nearest_upto(orig@, dir@, objs@, horizon, i as nat).1,
            exact::<T>() ==> (RayIntersectInfoView {
                hit,
                material: material@,
                point: point@,
                normal: normal@,
            }) == scene_intersect_upto(orig@, dir@, objs@, horizon, i as nat),
        decreases objs@.len() - i,
    {
        let obj = &objs[i];
        let (intersects, dist_i) = obj.ray_intersect(orig, dir);
        if intersects && dist_i < distance {
            distance = dist_i;
            let along = dir.mul(dist_i);
            let pt = orig.add(&along);
            let from_position = (&pt).sub(obj.get_position());
            hit = true;
            material = obj.get_material().clone();
            normal = from_position.normalize();
            point = pt;
        }
        i += 1;
    }
    RayIntersectInfo::from((hit, material, point, normal))
}

/// The unit vector from the point that `info` reports towards `light`.
pub open spec fn light_dir_of<T: Scalar>(light: LightView<T>, info: RayIntersectInfoView<T>) -> Seq<
    T,
> {
    normalize_of(differences(light.position, info.point))
}

/// Something stands between the point that `info` reports and `light`: a ray
/// from just off the point towards the light meets an object nearer to where it
/// starts than the light is to the point.
pub open spec fn occluded<T: Scalar, O: Object<T>>(
    light: LightView<T>,
    info: RayIntersectInfoView<T>,
    objs: Seq<Box<O>>,
    settings: SettingsView<T>,
) -> bool {
    let light_dir = light_dir_of(light, info);
    let shadow_origin = shift_of(light_dir, info.normal, info.point, settings.bias);
    let shadow = scene_intersect_of(shadow_origin, light_dir, objs, settings.horizon);
    shadow.hit && lt(
        magnitude_of(differences(shadow.point, shadow_origin)),
        magnitude_of(differences(light.position, info.point)),
    )
}

/// The diffuse light that `light` gives the point when nothing stands between:
/// its intensity times the cosine of the angle between the normal and the
/// direction to the light, or times zero where the light is behind the surface.
pub open spec fn diffuse_of<T: Scalar>(light: LightView<T>, info: RayIntersectInfoView<T>) -> T {
    light.intensity.mul_spec(max_of(zero_of::<T>(), dot_of(light_dir_of(light, info), info.normal)))
}

/// The highlight that `light` gives the point, seen along `dir`, when nothing
/// stands between: the cosine of the angle between `dir` and the mirrored
/// direction to the light, or zero where that is negative, raised to the
/// exponent of the material, times the intensity of the light.
pub open spec fn specular_of<T: Scalar>(
    light: LightView<T>,
    info: RayIntersectInfoView<T>,
    dir: Seq<T>,
) -> T {
    powf_of(
        max_of(zero_of::<T>(), dot_of(reflect_of(light_dir_of(light, info), info.normal), dir)),
        info.material.specular_exponent,
    ).mul_spec(light.intensity)
}

/// The diffuse light and the highlight `so_far` with what `light` adds to them:
/// nothing where something stands between, else its diffuse light and its
/// highlight.
pub open spec fn lit_by<T: Scalar, O: Object<T>>(
    so_far: (T, T),
    light: LightView<T>,
    info: RayIntersectInfoView<T>,
    dir: Seq<T>,
    objs: Seq<Box<O>>,
    settings: SettingsView<T>,
) -> (T, T) {
    if occluded(light, info, objs, settings) {
        so_far
    } else {
        (
            so_far.0.add_spec(diffuse_of(light, info)),
            so_far.1.add_spec(specular_of(light, info, dir)),
        )
    }
}

/// The diffuse light and the highlight that the first `n` lights give the point,
/// summed from zero in their order.
pub open spec fn lighting_upto<T: Scalar, O: Object<T>>(
    lights: Seq<Light<T>>,
    n: nat,
    info: RayIntersectInfoView<T>,
    dir: Seq<T>,
    objs: Seq<Box<O>>,
    settings: SettingsView<T>,
) -> (T, T)
    decreases n,
{
    if n == 0 {
        (zero_of::<T>(), zero_of::<T>())
    } else {
        lit_by(
            lighting_upto(lights, (n - 1) as nat, info, dir, objs, settings),
            lights[n - 1]@,
            info,
            dir,
            objs,
            settings,
        )
    }
}

/// What one light adds to the diffuse light and the highlight of a point.
///
/// `so_far` holds the two sums before, `info` what the ray along `dir` met. A
/// light that something stands in front of adds nothing. Any other adds its
/// intensity times the cosine of its angle to the normal to the first, and its
/// highlight to the second.
pub fn light_contribution<T: Scalar, O: Object<T>>(
    so_far: (T, T),
    light: &Light<T>,
    info: &RayIntersectInfo<T>,
    dir: &VecRT<T>,
    objs: &[Box<O>],
    settings: &Settings<T>,
) -> (r: (T, T))
    requires
        total::<T>(),
        dir@.len() == 3,
        well_placed(objs@),
    ensures
        exact::<T>() ==> r == lit_by(so_far, light@, info@, dir@, objs@, settings@),
        exact::<T>() && occluded(light@, info@, objs@, settings@) ==> r == so_far,
        exact::<T>() && !occluded(light@, info@, objs@, settings@) ==> r.0 == so_far.0.add_spec(
            light@.intensity.mul_spec(
                max_of(zero_of::<T>(), dot_of(light_dir_of(light@, info@), info@.normal)),
            ),
        ),
{
    proof {
        use_type_invariant(info);
    }
    let light_vec = light.get_position().sub(&info.first_intersect_point);
    let light_dir = light_vec.normalize();
    let distance_to_light = light_vec.magnitude();
    let shadow_origin = shift_point_along_normal(
        &light_dir,
        &info.first_intersect_normal,
        &info.first_intersect_point,
        settings.bias,
    );
    let shadow = scene_intersect(&shadow_origin, &light_dir, objs, settings.horizon);
    if shadow.intersects_with_scene && (&shadow.first_intersect_point).sub(
        &shadow_origin,
    ).magnitude() < distance_to_light {
        return so_far;
    }
    let z: T = zero();
    let diffuse = light.get_intensity() * max(z, light_dir.dot(&info.first_intersect_normal));
    let mirrored = reflect(&light_dir, &info.first_intersect_normal);
    let specular = powf(max(z, mirrored.dot(dir)), info.closest_material.specular_exponent())
        * light.get_intensity();
    (so_far.0 + diffuse, so_far.1 + specular)
}

/// The colour of a point: its material's colour times the diffuse light times the
/// diffuse share, and white times the highlight times the highlight's share,
/// and the mirrored and the refracted colour, added in this order.
pub open spec fn shade_of<T: Scalar>(
    material: MaterialView<T>,
    diffuse: T,
    specular: T,
    reflect_color: Seq<T>,
    refract_color: Seq<T>,
) -> Seq<T> {
    let diffuse_color = scaled(scaled(material.color, diffuse), material.albedo[0]);
    let specular_color = scaled(
        scaled(repeated(one_of::<T>(), 3), specular),
        material.albedo[1],
    );
    sums(sums(sums(diffuse_color, specular_color), reflect_color), refract_color)
}

/// The colour of a point of `material` under the diffuse light `diffuse` and the
/// highlight `specular`, with the colours `reflect_color` and `refract_color`
/// that come to it mirrored and refracted, each already weighed by its share.
/// No component is clamped.
pub fn shade<T: Scalar>(
    material: &Material<T>,
    diffuse: T,
    specular: T,
    reflect_color: &VecRT<T>,
    refract_color: &VecRT<T>,
) -> (r: VecRT<T>)
    requires
        total::<T>(),
        reflect_color@.len() == 3,
        refract_color@.len() == 3,
    ensures
        r@.len() == 3,
        exact_arithmetic::<T>() ==> r@ == shade_of(
            material@,
            diffuse,
            specular,
            reflect_color@,
            refract_color@,
        ),
{
    let u: T = one();
    let white = VecRT::new3f(u, u, u);
    proof {
        assert(white@ =~= repeated(u, 3));
    }
    let diffuse_color = (&material.color().mul(diffuse)).mul(*material.albedo().index(0));
    let specular_color = (&(&white).mul(specular)).mul(*material.albedo().index(1));
    let direct = (&diffuse_color).add(&specular_color);
    let with_mirror = (&direct).add(reflect_color);
    (&with_mirror).add(refract_color)
}

/// `v`, of three components, is the zero vector: each component equals zero.
pub open spec fn is_null<T: Scalar>(v: Seq<T>) -> bool {
    &&& same(v[0], zero_of::<T>())
    &&& same(v[1], zero_of::<T>())
    &&& same(v[2], zero_of::<T>())
}

/// Whether `v` is the zero vector, which stands for a ray that does not exist.
pub fn is_null_vector<T: Scalar>(v: &VecRT<T>) -> (r: bool)
    requires
        v@.len() == 3,
    ensures
        exact_arithmetic::<T>() ==> r == is_null(v@),
{
    let z: T = zero();
    *v.index(0) == z && *v.index(1) == z && *v.index(2) == z
}

/// The colour that comes back along the ray from `orig` in direction `dir`, which
/// has been mirrored or refracted `depth` times less one.
///
/// A ray that meets nothing, or that has bounced more often than the settings
/// allow, has the colour of the background. Any other has the colour of the
/// point it meets: the direct light on it, the colour that comes back along the
/// mirrored ray, and, where the material refracts, along the refracted ray, if
/// there is one.
pub open spec fn cast_ray_of<T: Scalar, O: Object<T>>(
    orig: Seq<T>,
    dir: Seq<T>,
    lights: Seq<Light<T>>,
    objs: Seq<Box<O>>,
    depth: nat,
    settings: SettingsView<T>,
) -> Seq<T>
    decreases settings.max_bounces + 1 - depth,
{
    let info = scene_intersect_of(orig, dir, objs, settings.horizon);
    if !info.hit || depth > settings.max_bounces {
        settings.background
    } else {
        let reflect_dir = reflect_of(dir, info.normal);
        let reflect_origin = shift_of(reflect_dir, info.normal, info.point, settings.bias);
        let reflect_color = scaled(
            cast_ray_of(reflect_origin, reflect_dir, lights, objs, depth + 1, settings),
            info.material.albedo[2],
        );
        let refract_dir = refract_of(dir, info.normal, info.material.refractive_index);
        let refract_origin = shift_of(refract_dir, info.normal, info.point, settings.bias);
        let refract_color = if same(info.material.refractive_index, one_of::<T>()) || is_null(
            refract_dir,
        ) {
            repeated(zero_of::<T>(), 3)
        } else {
            scaled(
                cast_ray_of(refract_origin, refract_dir, lights, objs, depth + 1, settings),
                info.material.albedo[3],
            )
        };
        let light = lighting_upto(lights, lights.len(), info, dir, objs, settings);
        shade_of(info.material, light.0, light.1, reflect_color, refract_color)
    }
}

/// A point adds no refracted light where its material has the refractive index
/// one, whatever share the material gives to refraction, nor where the ray is
/// reflected back whole: its colour is the direct light and the mirrored colour.
pub proof fn lemma_no_refraction<T: Scalar, O: Object<T>>(
    orig: Seq<T>,
    dir: Seq<T>,
    lights: Seq<Light<T>>,
    objs: Seq<Box<O>>,
    depth: nat,
    settings: SettingsView<T>,
)
    requires
        scene_intersect_of(orig, dir, objs, settings.horizon).hit,
        depth <= settings.max_bounces,
        ({
            let info = scene_intersect_of(orig, dir, objs, settings.horizon);
            same(info.material.refractive_index, one_of::<T>()) || is_null(
                refract_of(dir, info.normal, info.material.refractive_index),
            )
        }),
    ensures
        ({
            let info = scene_intersect_of(orig, dir, objs, settings.horizon);
            let reflect_dir = reflect_of(dir, info.normal);
            let reflect_origin = shift_of(reflect_dir, info.normal, info.point, settings.bias);
            let light = lighting_upto(lights, lights.len(), info, dir, objs, settings);
            cast_ray_of(orig, dir, lights, objs, depth, settings) == shade_of(
                info.material,
                light.0,
                light.1,
                scaled(
                    cast_ray_of(reflect_origin, reflect_dir, lights, objs, depth + 1, settings),
                    info.material.albedo[2],
                ),
                repeated(zero_of::<T>(), 3),
            )
        }),
{
}

/// The colour that comes back along the ray from the point `orig` along the unit
/// vector `dir`.
///
/// `depth` counts the ray's own bounces: one for a ray from the eye. The ray is
/// followed through at most as many mirrorings and refractions as `settings`
/// allows, each continued ray one deeper than the ray it continues, so the
/// casting ends whatever the scene holds.
pub fn cast_ray<T: Scalar, O: Object<T>>(
    orig: &VecRT<T>,
    dir: &VecRT<T>,
    lights: &[Light<T>],
    objs: &[Box<O>],
    depth: u32,
    settings: &Settings<T>,
) -> (r: VecRT<T>)
    requires
        total::<T>(),
        orig@.len() == 3,
        dir@.len() == 3,
        well_placed(objs@),
    ensures
        r@.len() == 3,
        exact::<T>() ==> r@ == cast_ray_of(orig@, dir@, lights@, objs@, depth as nat, settings@),
        exact::<T>() && !scene_intersect_of(orig@, dir@, objs@, settings@.horizon).hit ==> r@
            == settings@.background,
        exact::<T>() && depth > settings@.max_bounces ==> r@ == settings@.background,
    decreases settings@.max_bounces + 1 - depth,
{
    proof {
        use_type_invariant(settings);
    }
    let info = scene_intersect(orig, dir, objs, settings.horizon);
    if !info.intersects_with_scene || depth > settings.max_bounces {
        return settings.background.clone();
    }
    proof {
        use_type_invariant(&info);
    }
    let material = &info.closest_material;
    let normal = &info.first_intersect_normal;
    let point = &info.first_intersect_point;

    let reflect_dir = reflect(dir, normal);
    let reflect_origin = shift_point_along_normal(&reflect_dir, normal, point, settings.bias);
    let reflect_color = (&cast_ray(&reflect_origin, &reflect_dir, lights, objs, depth + 1, settings)).mul(
        *material.albedo().index(2),
    );

    let refract_color = if material.refractive_index() != one() {
        let refract_dir = refract(dir, normal, material.refractive_index());
        if is_null_vector(&refract_dir) {
            VecRT::zero()
        } else {
            let refract_origin = shift_point_along_normal(&refract_dir, normal, point, settings.bias);
            (&cast_ray(&refract_origin, &refract_dir, lights, objs, depth + 1, settings)).mul(
                *material.albedo().index(3),
            )
        }
    } else {
        VecRT::zero()
    };

    let mut light: (T, T) = (zero(), zero());
    let mut i: usize = 0;
    while i < lights.len()
        invariant
            i <= lights@.len(),
            total::<T>(),
            dir@.len() == 3,
            well_placed(objs@),
            exact::<T>() ==> light == lighting_upto(lights@, i as nat, info@, dir@, objs@, settings@),
        decreases lights@.len() - i,
    {
        light = light_contribution(light, &lights[i], &info, dir, objs, settings);
        i += 1;
    }
    shade(material, light.0, light.1, &reflect_color, &refract_color)
}

} // verus!
