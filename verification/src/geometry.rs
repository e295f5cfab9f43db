//! Vectors of a fixed number of components, and the two directions derived from
//! them: the mirror image of a ray and its refraction.

use vstd::prelude::*;
use vstd::std_specs::ops::{AddSpec, SubSpec, MulSpec, DivSpec, NegSpec};
use vstd::std_specs::ops::{AddSpecImpl, SubSpecImpl, MulSpecImpl, NegSpecImpl};
use core::ops::{Add, Sub, Mul, Neg};
use crate::scalar::{Scalar, is_zero, single_zero, zero_of, one_of, abs_of, sqrt_of};
use crate::scalar::{add_total, sub_total, mul_total, div_total, total, exact, ordered, gt, lt};
use crate::scalar::{zero, one, abs, sqrt};

verus! {

/// A vector: an ordered, fixed number of components.
#[derive(Debug, PartialEq)]
pub struct VecRT<T> {
    _data: Vec<T>,
}

impl<T> View for VecRT<T> {
    type V = Seq<T>;

    closed spec fn view(&self) -> Seq<T> {
        self._data@
    }
}

/// `n` copies of `x`.
pub open spec fn repeated<T>(x: T, n: nat) -> Seq<T> {
    Seq::new(n, |i: int| x)
}

/// The componentwise sums of `a` and `b`.
pub open spec fn sums<T: Add<Output = T>>(a: Seq<T>, b: Seq<T>) -> Seq<T> {
    Seq::new(a.len(), |i: int| a[i].add_spec(b[i]))
}

/// The componentwise differences of `a` and `b`.
pub open spec fn differences<T: Sub<Output = T>>(a: Seq<T>, b: Seq<T>) -> Seq<T> {
    Seq::new(a.len(), |i: int| a[i].sub_spec(b[i]))
}

/// Each component of `a` times `k`.
pub open spec fn scaled<T: Mul<Output = T>>(a: Seq<T>, k: T) -> Seq<T> {
    Seq::new(a.len(), |i: int| a[i].mul_spec(k))
}

/// Each component of `a` with its sign changed.
pub open spec fn negated<T: Neg<Output = T>>(a: Seq<T>) -> Seq<T> {
    Seq::new(a.len(), |i: int| a[i].neg_spec())
}

/// `a` and `b` have one length and each pair of components may be added.
pub open spec fn can_add<T: Add<Output = T>>(a: Seq<T>, b: Seq<T>) -> bool {
    &&& a.len() == b.len()
    &&& forall|i: int| 0 <= i < a.len() ==> (#[trigger] a[i]).add_req(b[i])
}

/// `a` and `b` have one length and each pair of components may be subtracted.
pub open spec fn can_sub<T: Sub<Output = T>>(a: Seq<T>, b: Seq<T>) -> bool {
    &&& a.len() == b.len()
    &&& forall|i: int| 0 <= i < a.len() ==> (#[trigger] a[i]).sub_req(b[i])
}

/// Each component of `a` may be multiplied by `k`.
pub open spec fn can_scale<T: Mul<Output = T>>(a: Seq<T>, k: T) -> bool {
    forall|i: int| 0 <= i < a.len() ==> (#[trigger] a[i]).mul_req(k)
}

/// Each component of `a` may be negated.
pub open spec fn can_negate<T: Neg<Output = T>>(a: Seq<T>) -> bool {
    forall|i: int| 0 <= i < a.len() ==> (#[trigger] a[i]).neg_req()
}

/// The sum of `z` and the first `n` products of components, added in the order
/// of the components.
pub open spec fn dot_from<T: Add<Output = T> + Mul<Output = T>>(
    z: T,
    a: Seq<T>,
    b: Seq<T>,
    n: nat,
) -> T
    decreases n,
{
    if n == 0 {
        z
    } else {
        dot_from(z, a, b, (n - 1) as nat).add_spec(a[n - 1].mul_spec(b[n - 1]))
    }
}

/// The dot product of `a` and `b`: the products of their components, summed from
/// zero in their order.
pub open spec fn dot_of<T: Default + Add<Output = T> + Mul<Output = T>>(
    a: Seq<T>,
    b: Seq<T>,
) -> T {
    dot_from(zero_of::<T>(), a, b, a.len())
}

/// Each product and each partial sum of the first `n` steps of the dot product
/// from `z` may be taken.
pub open spec fn dot_in_range<T: Add<Output = T> + Mul<Output = T>>(
    z: T,
    a: Seq<T>,
    b: Seq<T>,
    n: nat,
) -> bool
    decreases n,
{
    n == 0 || {
        &&& dot_in_range(z, a, b, (n - 1) as nat)
        &&& a[n - 1].mul_req(b[n - 1])
        &&& dot_from(z, a, b, (n - 1) as nat).add_req(a[n - 1].mul_spec(b[n - 1]))
    }
}

/// Sums and products of `T` are the specified ones.
pub open spec fn dot_named<T: Add<Output = T> + Mul<Output = T>>() -> bool {
    &&& T::obeys_add_spec()
    &&& T::obeys_mul_spec()
}

/// Sums and products of `T` are the specified ones, and its zero is one value.
pub open spec fn dot_exact<T: Default + Add<Output = T> + Mul<Output = T>>() -> bool {
    &&& dot_named::<T>()
    &&& single_zero::<T>()
}

/// The dot product of `a` and `b` may be taken: they have one length, and either
/// `T` adds and multiplies any values, or its sums and products are the specified
/// ones and every step from zero is within their preconditions.
pub open spec fn can_dot<T: Default + Add<Output = T> + Mul<Output = T>>(
    a: Seq<T>,
    b: Seq<T>,
) -> bool {
    &&& a.len() == b.len()
    &&& (add_total::<T>() && mul_total::<T>()) || {
        &&& dot_named::<T>()
        &&& forall|z: T| #[trigger] is_zero(z) ==> dot_in_range(z, a, b, a.len())
    }
}

/// Where the whole dot product is within the preconditions, so is each prefix.
pub proof fn lemma_dot_in_range_prefix<T: Add<Output = T> + Mul<Output = T>>(
    z: T,
    a: Seq<T>,
    b: Seq<T>,
    n: nat,
    k: nat,
)
    requires
        dot_in_range(z, a, b, n),
        k <= n,
    ensures
        dot_in_range(z, a, b, k),
    decreases n,
{
    if k < n {
        lemma_dot_in_range_prefix(z, a, b, (n - 1) as nat, k);
    }
}

impl<T: Copy> VecRT<T> {
    /// A vector of `size` components, each the default value of `T`.
    pub fn new(size: usize) -> (r: Self) where T: Default
        ensures
            r@.len() == size,
            exists|z: T| is_zero(z) && r@ == repeated(z, size as nat),
            single_zero::<T>() ==> r@ == repeated(zero_of::<T>(), size as nat),
    {
        let z: T = zero();
        let mut data: Vec<T> = Vec::with_capacity(size);
        let mut i: usize = 0;
        while i < size
            invariant
                i <= size,
                data@ == repeated(z, i as nat),
            decreases size - i,
        {
            data.push(z);
            i += 1;
            assert(data@ =~= repeated(z, i as nat));
        }
        VecRT { _data: data }
    }

    /// The vector whose components are `values`, in their order.
    pub fn from(values: &[T]) -> (r: Self)
        ensures
            r@ == values@,
    {
        let mut data: Vec<T> = Vec::with_capacity(values.len());
        let mut i: usize = 0;
        while i < values.len()
            invariant
                i <= values@.len(),
                data@ == values@.subrange(0, i as int),
            decreases values@.len() - i,
        {
            data.push(values[i]);
            i += 1;
            assert(data@ =~= values@.subrange(0, i as int));
        }
        assert(data@ =~= values@);
        VecRT { _data: data }
    }

    /// The vector `(x, y, z)`.
    pub fn new3f(x: T, y: T, z: T) -> (r: Self)
        ensures
            r@ == seq![x, y, z],
    {
        let mut data: Vec<T> = Vec::with_capacity(3);
        data.push(x);
        data.push(y);
        data.push(z);
        assert(data@ =~= seq![x, y, z]);
        VecRT { _data: data }
    }

    /// The zero vector of three components.
    pub fn zero() -> (r: Self) where T: Default
        ensures
            r@.len() == 3,
            exists|z: T| is_zero(z) && r@ == repeated(z, 3),
            single_zero::<T>() ==> r@ == repeated(zero_of::<T>(), 3),
    {
        VecRT::new(3)
    }

    /// The number of components.
    pub fn len(&self) -> (n: usize)
        ensures
            n == self@.len(),
    {
        self._data.len()
    }

    /// The component at `index`.
    pub fn index(&self, index: i32) -> (r: &T)
        requires
            0 <= index < self@.len(),
        ensures
            *r == self@[index as int],
    {
        &self._data[index as usize]
    }

    /// The component at `index`, to be written through.
    pub fn index_mut(&mut self, index: i32) -> (r: &mut T)
        requires
            0 <= index < old(self)@.len(),
        ensures
            *r == old(self)@[index as int],
            final(self)@ == old(self)@.update(index as int, *final(r)),
    {
        &mut self._data[index as usize]
    }

    /// The dot product with `rhs`: the products of the components, summed from
    /// zero in their order.
    pub fn dot(&self, rhs: &VecRT<T>) -> (r: T) where
        T: Default + Add<Output = T> + Mul<Output = T>,

        requires
            can_dot(self@, rhs@),
        ensures
            exists|z: T| #[trigger]
                is_zero(z) && (dot_named::<T>() ==> r == dot_from(z, self@, rhs@, self@.len())),
            dot_exact::<T>() ==> r == dot_of(self@, rhs@),
    {
        let n = self._data.len();
        let z: T = zero();
        let mut acc: T = z;
        let mut i: usize = 0;
        while i < n
            invariant
                i <= n,
                n == self@.len(),
                can_dot(self@, rhs@),
                is_zero(z),
                dot_named::<T>() ==> acc == dot_from(z, self@, rhs@, i as nat),
            decreases n - i,
        {
            proof {
                if !(add_total::<T>() && mul_total::<T>()) {
                    lemma_dot_in_range_prefix(z, self@, rhs@, n as nat, (i + 1) as nat);
                }
            }
            let p = self._data[i] * rhs._data[i];
            acc = acc + p;
            i += 1;
        }
        acc
    }
}

impl<T: Copy> Clone for VecRT<T> {
    fn clone(&self) -> (r: Self)
        ensures
            r@ == self@,
    {
        VecRT::from(self._data.as_slice())
    }
}

impl<T: Copy + Sub<Output = T>> SubSpecImpl<&VecRT<T>> for &VecRT<T> {
    /// The operator claims no specified value: what it returns is stated by
    /// `sub` itself, over the views.
    open spec fn obeys_sub_spec() -> bool {
        false
    }

    open spec fn sub_req(self, rhs: &VecRT<T>) -> bool {
        can_sub(self@, rhs@)
    }

    open spec fn sub_spec(self, rhs: &VecRT<T>) -> VecRT<T> {
        *self
    }
}

impl<T: Copy + Sub<Output = T>> Sub<&VecRT<T>> for &VecRT<T> {
    type Output = VecRT<T>;

    /// The componentwise difference `self - rhs`.
    fn sub(self, rhs: &VecRT<T>) -> (r: VecRT<T>)
        ensures
            r@.len() == self@.len(),
            T::obeys_sub_spec() ==> r@ == differences(self@, rhs@),
    {
        let n = self._data.len();
        let mut data: Vec<T> = Vec::with_capacity(n);
        let mut i: usize = 0;
        while i < n
            invariant
                i <= n,
                n == self@.len(),
                can_sub(self@, rhs@),
                data@.len() == i,
                T::obeys_sub_spec() ==> forall|j: int|
                    0 <= j < i ==> data@[j] == self@[j].sub_spec(rhs@[j]),
            decreases n - i,
        {
            data.push(self._data[i] - rhs._data[i]);
            i += 1;
        }
        assert(T::obeys_sub_spec() ==> data@ =~= differences(self@, rhs@));
        VecRT { _data: data }
    }
}

impl<T: Copy + Neg<Output = T>> NegSpecImpl for VecRT<T> {
    /// The operator claims no specified value: what it returns is stated by
    /// `neg` itself, over the views.
    open spec fn obeys_neg_spec() -> bool {
        false
    }

    open spec fn neg_req(self) -> bool {
        can_negate(self@)
    }

    open spec fn neg_spec(self) -> VecRT<T> {
        self
    }
}

impl<T: Copy + Neg<Output = T>> Neg for VecRT<T> {
    type Output = VecRT<T>;

    /// The vector with the sign of each component changed.
    fn neg(self) -> (r: VecRT<T>)
        ensures
            r@.len() == self@.len(),
            T::obeys_neg_spec() ==> r@ == negated(self@),
    {
        let n = self._data.len();
        let mut data: Vec<T> = Vec::with_capacity(n);
        let mut i: usize = 0;
        while i < n
            invariant
                i <= n,
                n == self@.len(),
                can_negate(self@),
                data@.len() == i,
                T::obeys_neg_spec() ==> forall|j: int|
                    0 <= j < i ==> data@[j] == self@[j].neg_spec(),
            decreases n - i,
        {
            data.push(self._data[i].neg());
            i += 1;
        }
        assert(T::obeys_neg_spec() ==> data@ =~= negated(self@));
        VecRT { _data: data }
    }
}

impl<T: Copy + Add<Output = T>> AddSpecImpl<&VecRT<T>> for &VecRT<T> {
    /// The operator claims no specified value: what it returns is stated by
    /// `add` itself, over the views.
    open spec fn obeys_add_spec() -> bool {
        false
    }

    open spec fn add_req(self, rhs: &VecRT<T>) -> bool {
        can_add(self@, rhs@)
    }

    open spec fn add_spec(self, rhs: &VecRT<T>) -> VecRT<T> {
        *self
    }
}

impl<T: Copy + Add<Output = T>> Add<&VecRT<T>> for &VecRT<T> {
    type Output = VecRT<T>;

    /// The componentwise sum `self + rhs`.
    fn add(self, rhs: &VecRT<T>) -> (r: VecRT<T>)
        ensures
            r@.len() == self@.len(),
            T::obeys_add_spec() ==> r@ == sums(self@, rhs@),
    {
        let n = self._data.len();
        let mut data: Vec<T> = Vec::with_capacity(n);
        let mut i: usize = 0;
        while i < n
            invariant
                i <= n,
                n == self@.len(),
                can_add(self@, rhs@),
                data@.len() == i,
                T::obeys_add_spec() ==> forall|j: int|
                    0 <= j < i ==> data@[j] == self@[j].add_spec(rhs@[j]),
            decreases n - i,
        {
            data.push(self._data[i] + rhs._data[i]);
            i += 1;
        }
        assert(T::obeys_add_spec() ==> data@ =~= sums(self@, rhs@));
        VecRT { _data: data }
    }
}

impl<T: Copy + Mul<Output = T>> MulSpecImpl<T> for &VecRT<T> {
    /// The operator claims no specified value: what it returns is stated by
    /// `mul` itself, over the views.
    open spec fn obeys_mul_spec() -> bool {
        false
    }

    open spec fn mul_req(self, rhs: T) -> bool {
        can_scale(self@, rhs)
    }

    open spec fn mul_spec(self, rhs: T) -> VecRT<T> {
        *self
    }
}

impl<T: Copy + Mul<Output = T>> Mul<T> for &VecRT<T> {
    type Output = VecRT<T>;

    /// Each component of `self` times `rhs`.
    fn mul(self, rhs: T) -> (r: VecRT<T>)
        ensures
            r@.len() == self@.len(),
            T::obeys_mul_spec() ==> r@ == scaled(self@, rhs),
    {
        let n = self._data.len();
        let mut data: Vec<T> = Vec::with_capacity(n);
        let mut i: usize = 0;
        while i < n
            invariant
                i <= n,
                n == self@.len(),
                can_scale(self@, rhs),
                data@.len() == i,
                T::obeys_mul_spec() ==> forall|j: int|
                    0 <= j < i ==> data@[j] == self@[j].mul_spec(rhs),
            decreases n - i,
        {
            data.push(self._data[i] * rhs);
            i += 1;
        }
        assert(T::obeys_mul_spec() ==> data@ =~= scaled(self@, rhs));
        VecRT { _data: data }
    }
}

/// The larger of `a` and `b`; `b` where `a` is not greater.
pub open spec fn max_of<T: PartialOrd>(a: T, b: T) -> T {
    if gt(a, b) {
        a
    } else {
        b
    }
}

/// The smaller of `a` and `b`; `b` where `a` is not less.
pub open spec fn min_of<T: PartialOrd>(a: T, b: T) -> T {
    if lt(a, b) {
        a
    } else {
        b
    }
}

/// The larger of `a` and `b`; `b` where `a` is not greater.
pub fn max<T: PartialOrd + Copy>(a: T, b: T) -> (r: T)
    ensures
        r == a || r == b,
        ordered::<T>() ==> r == max_of(a, b),
{
    if a > b { a } else { b }
}

/// The smaller of `a` and `b`; `b` where `a` is not less.
pub fn min<T: PartialOrd + Copy>(a: T, b: T) -> (r: T)
    ensures
        r == a || r == b,
        ordered::<T>() ==> r == min_of(a, b),
{
    if a < b { a } else { b }
}

/// `i` less twice `n` times the dot product of the two from `z`.
pub open spec fn reflect_from<T: Add<Output = T> + Sub<Output = T> + Mul<Output = T>>(
    z: T,
    i: Seq<T>,
    n: Seq<T>,
) -> Seq<T> {
    differences(i, scaled(sums(n, n), dot_from(z, i, n, i.len())))
}

/// The mirror image of `i` about `n`: `i` less twice `n` times the dot product of
/// the two.
pub open spec fn reflect_of<T: Default + Add<Output = T> + Sub<Output = T> + Mul<Output = T>>(
    i: Seq<T>,
    n: Seq<T>,
) -> Seq<T> {
    reflect_from(zero_of::<T>(), i, n)
}

/// Each step of mirroring `i` about `n`, with the dot product taken from `z`, is
/// within the preconditions of the operators.
pub open spec fn reflect_in_range<T: Add<Output = T> + Sub<Output = T> + Mul<Output = T>>(
    z: T,
    i: Seq<T>,
    n: Seq<T>,
) -> bool {
    &&& dot_in_range(z, i, n, i.len())
    &&& can_add(n, n)
    &&& can_scale(sums(n, n), dot_from(z, i, n, i.len()))
    &&& can_sub(i, scaled(sums(n, n), dot_from(z, i, n, i.len())))
}

/// Sums, differences and products of `T` are the specified ones.
pub open spec fn reflect_named<T: Add<Output = T> + Sub<Output = T> + Mul<Output = T>>() -> bool {
    &&& dot_named::<T>()
    &&& T::obeys_sub_spec()
}

/// Sums, differences and products of `T` are the specified ones, and its zero is
/// one value.
pub open spec fn reflect_exact<T: Default + Add<Output = T> + Sub<Output = T> + Mul<Output = T>>() -> bool {
    &&& reflect_named::<T>()
    &&& single_zero::<T>()
}

/// The mirror image of `i` about `n` may be taken: they have one length, and
/// either `T` adds, subtracts and multiplies any values, or these are the
/// specified ones and every step is within their preconditions.
pub open spec fn can_reflect<T: Default + Add<Output = T> + Sub<Output = T> + Mul<Output = T>>(
    i: Seq<T>,
    n: Seq<T>,
) -> bool {
    &&& i.len() == n.len()
    &&& (add_total::<T>() && sub_total::<T>() && mul_total::<T>()) || {
        &&& reflect_named::<T>()
        &&& forall|z: T| #[trigger] is_zero(z) ==> reflect_in_range(z, i, n)
    }
}

/// The direction of a ray of direction `i` after it is mirrored by a surface of
/// normal `n`. The result has unit length where both arguments have.
pub fn reflect<T>(i: &VecRT<T>, n: &VecRT<T>) -> (r: VecRT<T>) where
    T: Copy + Default + Add<Output = T> + Sub<Output = T> + Mul<Output = T>,

    requires
        can_reflect(i@, n@),
    ensures
        r@.len() == i@.len(),
        exists|z: T| #[trigger] is_zero(z) && (reflect_named::<T>() ==> r@ == reflect_from(z, i@, n@)),
        reflect_exact::<T>() ==> r@ == reflect_of(i@, n@),
{
    let d = i.dot(n);
    let twice = n.add(n);
    let along = (&twice).mul(d);
    i.sub(&along)
}

/// The length of `v`: the square root of its dot product with itself.
pub open spec fn magnitude_of<T: Scalar>(v: Seq<T>) -> T {
    sqrt_of(dot_of(v, v))
}

/// Each component of `v` divided by the length of `v`.
pub open spec fn normalize_of<T: Scalar>(v: Seq<T>) -> Seq<T> {
    Seq::new(v.len(), |i: int| v[i].div_spec(magnitude_of(v)))
}

/// `v` may be normalized: its length may be taken, and either `T` divides any
/// values, or its arithmetic is exact and each component may be divided by the
/// length.
pub open spec fn can_normalize<T: Scalar>(v: Seq<T>) -> bool {
    &&& can_dot(v, v)
    &&& div_total::<T>() || {
        &&& exact::<T>()
        &&& forall|i: int| 0 <= i < v.len() ==> (#[trigger] v[i]).div_req(magnitude_of(v))
    }
}

impl<T: Scalar> VecRT<T> {
    /// The length of the vector.
    pub fn magnitude(&self) -> (r: T)
        requires
            can_dot(self@, self@),
        ensures
            exact::<T>() ==> r == magnitude_of(self@),
    {
        sqrt(self.dot(self))
    }

    /// The vector scaled to unit length: each component divided by the length.
    pub fn normalize(&self) -> (r: VecRT<T>)
        requires
            can_normalize(self@),
        ensures
            r@.len() == self@.len(),
            exact::<T>() ==> r@ == normalize_of(self@),
    {
        let mag = self.magnitude();
        let n = self._data.len();
        let mut data: Vec<T> = Vec::with_capacity(n);
        let mut i: usize = 0;
        while i < n
            invariant
                i <= n,
                n == self@.len(),
                can_normalize(self@),
                exact::<T>() ==> mag == magnitude_of(self@),
                data@.len() == i,
                exact::<T>() ==> forall|j: int|
                    0 <= j < i ==> data@[j] == self@[j].div_spec(magnitude_of(self@)),
            decreases n - i,
        {
            data.push(self._data[i] / mag);
            i += 1;
        }
        assert(exact::<T>() ==> data@ =~= normalize_of(self@));
        VecRT { _data: data }
    }
}

/// The cosine of the angle at which `incident` meets a surface of normal
/// `normal`, as signed by the side it comes from: negative from inside.
pub open spec fn refract_cos_in<T: Scalar>(incident: Seq<T>, normal: Seq<T>) -> T {
    dot_of(normal, incident).neg_spec()
}

/// The ratio of the refractive index of the medium that the ray leaves to that
/// of the medium it enters, the outside having index one.
pub open spec fn refract_ratio<T: Scalar>(incident: Seq<T>, normal: Seq<T>, index: T) -> T {
    if lt(refract_cos_in(incident, normal), zero_of::<T>()) {
        index.div_spec(one_of::<T>())
    } else {
        one_of::<T>().div_spec(index)
    }
}

/// One less the squared sine of the angle of refraction; negative where the ray
/// is reflected back whole.
pub open spec fn refract_k<T: Scalar>(incident: Seq<T>, normal: Seq<T>, index: T) -> T {
    let cos = abs_of(refract_cos_in(incident, normal));
    let ratio = refract_ratio(incident, normal, index);
    one_of::<T>().sub_spec(
        ratio.mul_spec(ratio).mul_spec(one_of::<T>().sub_spec(cos.mul_spec(cos))),
    )
}

/// The direction of `incident` after it passes a surface of normal `normal` into
/// or out of a medium of refractive index `index`; the zero vector where it is
/// reflected back whole.
pub open spec fn refract_of<T: Scalar>(incident: Seq<T>, normal: Seq<T>, index: T) -> Seq<T> {
    let cos_in = refract_cos_in(incident, normal);
    let facing = if lt(cos_in, zero_of::<T>()) {
        negated(normal)
    } else {
        normal
    };
    let cos = abs_of(cos_in);
    let ratio = refract_ratio(incident, normal, index);
    let k = refract_k(incident, normal, index);
    if lt(k, zero_of::<T>()) {
        repeated(zero_of::<T>(), 3)
    } else {
        normalize_of(
            sums(scaled(incident, ratio), scaled(facing, ratio.mul_spec(cos).sub_spec(sqrt_of(k)))),
        )
    }
}

/// The direction of a ray after refraction, by Snell's law in vector form.
///
/// `incident_ray` and `normal` are unit vectors of three components and
/// `refractive_index` is that of the medium behind the surface. A ray that meets
/// the surface from inside leaves the medium: the indices change places and the
/// normal is turned. Where the ray is reflected back whole there is no refracted
/// ray, and the result is the zero vector.
pub fn refract<T: Scalar>(incident_ray: &VecRT<T>, normal: &VecRT<T>, refractive_index: T) -> (r:
    VecRT<T>)
    requires
        total::<T>(),
        incident_ray@.len() == 3,
        normal@.len() == 3,
    ensures
        r@.len() == 3,
        exact::<T>() ==> r@ == refract_of(incident_ray@, normal@, refractive_index),
        exact::<T>() && lt(refract_k(incident_ray@, normal@, refractive_index), zero_of::<T>())
            ==> r@ == repeated(zero_of::<T>(), 3),
{
    let z: T = zero();
    let u: T = one();
    let cos_in = normal.dot(incident_ray).neg();
    let inside = cos_in < z;
    let n_1 = if inside { u } else { refractive_index };
    let n_2 = if inside { refractive_index } else { u };
    let n = if inside { normal.clone().neg() } else { normal.clone() };
    let cos_corrected = abs(cos_in);
    let ref_index_ratio = n_2 / n_1;
    let k = u - ((ref_index_ratio * ref_index_ratio) * (u - (cos_corrected * cos_corrected)));
    if k < z {
        VecRT::zero()
    } else {
        let r_i = incident_ray.mul(ref_index_ratio);
        let r_n = (&n).mul((ref_index_ratio * cos_corrected) - sqrt(k));
        let bent = (&r_i).add(&r_n);
        bent.normalize()
    }
}

} // verus!
