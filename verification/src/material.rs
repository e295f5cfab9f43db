//! What a surface is made of.

use vstd::prelude::*;
use crate::geometry::VecRT;

verus! {

/// The properties of a surface: its colour, the shares of light that it returns
/// in each of four ways, the sharpness of its highlight, and its refractive
/// index.
#[derive(Debug)]
pub struct Material<T> {
    base_color: VecRT<T>,
    // The share of incoming light that leaves the surface diffusely (0), as a
    // highlight (1), mirrored (2) and refracted (3).
    albedo: VecRT<T>,
    specular_exponent: T,
    refractive_index: T,
}

/// A material as plain values.
pub ghost struct MaterialView<T> {
    pub color: Seq<T>,
    pub albedo: Seq<T>,
    pub specular_exponent: T,
    pub refractive_index: T,
}

impl<T> View for Material<T> {
    type V = MaterialView<T>;

    closed spec fn view(&self) -> MaterialView<T> {
        MaterialView {
            color: self.base_color@,
            albedo: self.albedo@,
            specular_exponent: self.specular_exponent,
            refractive_index: self.refractive_index,
        }
    }
}

impl<T> Material<T> {
    /// The colour has three components and the albedo four.
    #[verifier::type_invariant]
    closed spec fn well_formed(&self) -> bool {
        &&& self.base_color@.len() == 3
        &&& self.albedo@.len() == 4
    }
}

impl<T: Copy> Material<T> {
    /// A material of colour `base_color`, a vector of three components, and of
    /// the shares `albedo`, a vector of four.
    pub fn new(base_color: &VecRT<T>, albedo: &VecRT<T>, specular_exponent: T, refractive_index: T) -> (r:
        Self)
        requires
            base_color@.len() == 3,
            albedo@.len() == 4,
        ensures
            r@ == (MaterialView {
                color: base_color@,
                albedo: albedo@,
                specular_exponent,
                refractive_index,
            }),
    {
        Material {
            base_color: base_color.clone(),
            albedo: albedo.clone(),
            specular_exponent,
            refractive_index,
        }
    }

    /// The colour of the surface, of three components.
    pub fn color(&self) -> (r: &VecRT<T>)
        ensures
            r@ == self@.color,
            r@.len() == 3,
    {
        proof {
            use_type_invariant(self);
        }
        &self.base_color
    }

    /// The four shares of light: diffuse, highlight, mirrored, refracted.
    pub fn albedo(&self) -> (r: &VecRT<T>)
        ensures
            r@ == self@.albedo,
            r@.len() == 4,
    {
        proof {
            use_type_invariant(self);
        }
        &self.albedo
    }

    /// The exponent of the highlight: the larger, the sharper.
    pub fn specular_exponent(&self) -> (r: T)
        ensures
            r == self@.specular_exponent,
    {
        self.specular_exponent
    }

    /// The refractive index; one for a surface that does not refract.
    pub fn refractive_index(&self) -> (r: T)
        ensures
            r == self@.refractive_index,
    {
        self.refractive_index
    }
}

impl<T: Copy> Clone for Material<T> {
    fn clone(&self) -> (r: Self)
        ensures
            r@ == self@,
            r@.color.len() == 3,
            r@.albedo.len() == 4,
    {
        proof {
            use_type_invariant(self);
        }
        Material::new(
            &self.base_color,
            &self.albedo,
            self.specular_exponent,
            self.refractive_index,
        )
    }

    fn clone_from(&mut self, source: &Self)
        ensures
            final(self)@ == source@,
    {
        *self = source.clone();
    }
}

} // verus!
