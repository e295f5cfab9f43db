//! Point lights.

use vstd::prelude::*;
use crate::geometry::VecRT;

verus! {

/// A light at a point, shining alike in all directions.
pub struct Light<T> {
    position: VecRT<T>,
    intensity: T,
}

/// A light as plain values.
pub ghost struct LightView<T> {
    pub position: Seq<T>,
    pub intensity: T,
}

impl<T> View for Light<T> {
    type V = LightView<T>;

    closed spec fn view(&self) -> LightView<T> {
        LightView { position: self.position@, intensity: self.intensity }
    }
}

impl<T> Light<T> {
    /// The position has three components.
    #[verifier::type_invariant]
    closed spec fn well_formed(&self) -> bool {
        self.position@.len() == 3
    }
}

impl<T: Copy> Light<T> {
    /// A light at `p`, a point of three components, of intensity `i`.
    pub fn new(p: &VecRT<T>, i: T) -> (r: Self)
        requires
            p@.len() == 3,
        ensures
            r@ == (LightView { position: p@, intensity: i }),
    {
        Light { position: p.clone(), intensity: i }
    }

    /// Where the light is, a point of three components.
    pub fn get_position(&self) -> (r: &VecRT<T>)
        ensures
            r@ == self@.position,
            r@.len() == 3,
    {
        proof {
            use_type_invariant(self);
        }
        &self.position
    }

    /// How bright the light is.
    pub fn get_intensity(&self) -> (r: T)
        ensures
            r == self@.intensity,
    {
        self.intensity
    }
}

} // verus!
