//! What a ray can meet: the capability of a surface, and the sphere.

use vstd::prelude::*;
use vstd::std_specs::ops::{AddSpec, SubSpec, MulSpec};
use core::ops::Sub;
use crate::scalar::{Scalar, total, exact, exact_arithmetic, zero_of, sqrt_of, lt, gt, ge};
use crate::scalar::{zero, sqrt};
use crate::geometry::{VecRT, dot_of, differences};
use crate::material::{Material, MaterialView};

verus! {

/// A surface in a scene.
pub trait Object<T: Scalar> {
    /// What `ray_intersect` returns for the ray from `orig` along `dir`.
    open spec fn intersect_of(&self, orig: Seq<T>, dir: Seq<T>) -> (bool, T) {
        arbitrary()
    }

    /// The point that `get_position` returns.
    open spec fn position_of(&self) -> Seq<T> {
        arbitrary()
    }

    /// The material that `get_material` returns.
    open spec fn material_of(&self) -> MaterialView<T> {
        arbitrary()
    }

    /// Whether the ray from the point `orig` along the unit vector `dir` meets
    /// the surface, and at what distance along the ray it first does.
    fn ray_intersect(&self, orig: &VecRT<T>, dir: &VecRT<T>) -> (r: (bool, T))
        requires
            total::<T>(),
            orig@.len() == 3,
            dir@.len() == 3,
        ensures
            exact::<T>() ==> r == self.intersect_of(orig@, dir@),
    ;

    /// The point from which the surface's normals point outwards.
    fn get_position(&self) -> (r: &VecRT<T>)
        ensures
            r@ == self.position_of(),
    ;

    /// What the surface is made of.
    fn get_material(&self) -> (r: &Material<T>)
        ensures
            r@ == self.material_of(),
    ;
}

/// A sphere.
#[derive(Debug)]
pub struct Sphere<T> {
    center: VecRT<T>,
    radius: T,
    material: Material<T>,
}

/// A sphere as plain values.
pub ghost struct SphereView<T> {
    pub center: Seq<T>,
    pub radius: T,
    pub material: MaterialView<T>,
}

impl<T> View for Sphere<T> {
    type V = SphereView<T>;

    closed spec fn view(&self) -> SphereView<T> {
        SphereView { center: self.center@, radius: self.radius, material: self.material@ }
    }
}

impl<T> Sphere<T> {
    /// The centre has three components.
    #[verifier::type_invariant]
    closed spec fn well_formed(&self) -> bool {
        self.center@.len() == 3
    }
}

impl<T: Copy> Sphere<T> {
    /// The sphere about `c`, a point of three components, of radius `r`, made of
    /// `material`.
    pub fn new(c: VecRT<T>, r: T, material: &Material<T>) -> (s: Self)
        requires
            c@.len() == 3,
        ensures
            s@ == (SphereView { center: c@, radius: r, material: material@ }),
    {
        Sphere { center: c, radius: r, material: material.clone() }
    }
}

/// The distance along the ray from `orig` in direction `dir` to the point of the
/// ray that is nearest to `center`.
pub open spec fn closest_approach<T: Scalar>(center: Seq<T>, orig: Seq<T>, dir: Seq<T>) -> T {
    dot_of(differences(center, orig), dir)
}

/// The squared distance from `center` to the line of the ray.
pub open spec fn offset_squared<T: Scalar>(center: Seq<T>, orig: Seq<T>, dir: Seq<T>) -> T {
    let l = differences(center, orig);
    let tca = closest_approach(center, orig, dir);
    dot_of(l, l).sub_spec(tca.mul_spec(tca))
}

/// The line of the ray passes the sphere at more than its radius.
pub open spec fn passes_by<T: Scalar>(s: SphereView<T>, orig: Seq<T>, dir: Seq<T>) -> bool {
    gt(offset_squared(s.center, orig, dir), s.radius.mul_spec(s.radius))
}

/// The nearer of the two points `tca - thc` and `tca + thc` along a ray that is
/// not behind its origin, or the farther where the nearer is behind, and whether
/// that point is not behind the origin either.
pub open spec fn nearest_root_of<T: Scalar>(tca: T, thc: T) -> (bool, T) {
    let t0 = tca.sub_spec(thc);
    let t1 = tca.add_spec(thc);
    let t = if lt(t0, zero_of::<T>()) {
        t1
    } else {
        t0
    };
    (ge(t, zero_of::<T>()), t)
}

/// Whether the ray from `orig` along `dir` meets the sphere, and at what distance.
pub open spec fn sphere_intersect_of<T: Scalar>(s: SphereView<T>, orig: Seq<T>, dir: Seq<T>) -> (
    bool,
    T,
) {
    if passes_by(s, orig, dir) {
        (false, zero_of::<T>())
    } else {
        nearest_root_of(
            closest_approach(s.center, orig, dir),
            sqrt_of(
                s.radius.mul_spec(s.radius).sub_spec(offset_squared(s.center, orig, dir)),
            ),
        )
    }
}

/// Of the two points at which a line enters and leaves a sphere, the one that a
/// ray along the line meets first. `tca` is the distance along the ray to the
/// middle of the chord and `thc` half the length of the chord. The result is the
/// distance to the point, and whether there is one: whether it is not behind the
/// origin.
pub fn nearest_root<T: Scalar>(tca: T, thc: T) -> (r: (bool, T))
    requires
        total::<T>(),
    ensures
        exact_arithmetic::<T>() ==> r == nearest_root_of(tca, thc),
{
    let z: T = zero();
    let mut t0 = tca - thc;
    let t1 = tca + thc;
    if t0 < z {
        t0 = t1;
    }
    (t0 >= z, t0)
}

impl<T: Scalar> Object<T> for Sphere<T> {
    open spec fn intersect_of(&self, orig: Seq<T>, dir: Seq<T>) -> (bool, T) {
        sphere_intersect_of(self@, orig, dir)
    }

    open spec fn position_of(&self) -> Seq<T> {
        self@.center
    }

    open spec fn material_of(&self) -> MaterialView<T> {
        self@.material
    }

    /// A ray whose line passes the sphere at more than its radius misses it. Any
    /// other meets it where the ray enters the sphere, or where it leaves it if
    /// it starts inside, unless both points are behind the origin. A ray that
    /// touches the sphere at one point meets it there.
    fn ray_intersect(&self, orig: &VecRT<T>, dir: &VecRT<T>) -> (r: (bool, T))
        ensures
            exact::<T>() && passes_by(self@, orig@, dir@) ==> !r.0,
    {
        proof {
            use_type_invariant(self);
        }
        let l = (&self.center).sub(orig);
        let tca = l.dot(dir);
        let d2 = l.dot(&l) - (tca * tca);
        if d2 > (self.radius * self.radius) {
            return (false, zero());
        }
        let thc = sqrt(self.radius * self.radius - d2);
        nearest_root(tca, thc)
    }

    fn get_position(&self) -> (r: &VecRT<T>)
        ensures
            r@.len() == 3,
    {
        proof {
            use_type_invariant(self);
        }
        &self.center
    }

    fn get_material(&self) -> (r: &Material<T>) {
        &self.material
    }
}

} // verus!
