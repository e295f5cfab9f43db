//! Vectors of `i64`: where the arithmetic is that of the integers, what the
//! vector operations compute can be said in integers.

use vstd::prelude::*;
use vstd::std_specs::ops::{AddSpec, SubSpec, MulSpec};
use crate::geometry::{sums, scaled, dot_from, dot_in_range, reflect_from, reflect_in_range};

verus! {

/// The sum of the first `k` products of components of `a` and `b`, as integers.
pub open spec fn int_dot(a: Seq<i64>, b: Seq<i64>, k: nat) -> int
    decreases k,
{
    if k == 0 {
        0
    } else {
        int_dot(a, b, (k - 1) as nat) + a[k - 1] * b[k - 1]
    }
}

/// A dot product of `i64` vectors that stays within `i64` at each step is the
/// sum of the products.
pub proof fn lemma_dot_of_integers(a: Seq<i64>, b: Seq<i64>, k: nat)
    requires
        dot_in_range(0i64, a, b, k),
    ensures
        dot_from(0i64, a, b, k) == int_dot(a, b, k),
    decreases k,
{
    if k > 0 {
        lemma_dot_of_integers(a, b, (k - 1) as nat);
    }
}

/// Mirroring turns the component along a unit normal: for vectors of `i64` of one
/// length, where every step stays within `i64`, the dot product of the mirror
/// image of `i` about `n` with `n` is the negative of the dot product of `i` with
/// `n`.
pub proof fn lemma_reflect_turns_normal_component(i: Seq<i64>, n: Seq<i64>)
    requires
        i.len() == n.len(),
        reflect_in_range(0i64, i, n),
        dot_in_range(0i64, n, n, n.len()),
        dot_from(0i64, n, n, n.len()) == 1,
        dot_in_range(0i64, reflect_from(0i64, i, n), n, n.len()),
    ensures
        dot_from(0i64, reflect_from(0i64, i, n), n, n.len()) == -dot_from(0i64, i, n, i.len()),
{
    let r = reflect_from(0i64, i, n);
    let d = dot_from(0i64, i, n, i.len());
    let len = i.len();
    lemma_dot_of_integers(i, n, len);
    lemma_dot_of_integers(n, n, len);
    lemma_dot_of_integers(r, n, len);
    assert forall|j: int| 0 <= j < len implies #[trigger] r[j] == i[j] - 2 * n[j] * d by {
        let twice = sums(n, n);
        assert(n[j].add_req(n[j]));
        assert(twice[j] == n[j] + n[j]);
        assert(twice[j].mul_req(d));
        let along = scaled(twice, d);
        assert(along[j] == twice[j] * d);
        assert(i[j].sub_req(along[j]));
        assert((n[j] + n[j]) * d == 2 * n[j] * d) by (nonlinear_arith);
    }
    lemma_int_dot_of_mirror(r, i, n, d as int, len);
}

/// Where each `r[j]` is `i[j] - 2 * n[j] * d`, the sum of the products of `r` and
/// `n` is that of `i` and `n` less `2 * d` times that of `n` and `n`.
proof fn lemma_int_dot_of_mirror(r: Seq<i64>, i: Seq<i64>, n: Seq<i64>, d: int, k: nat)
    requires
        k <= r.len(),
        r.len() == i.len(),
        r.len() == n.len(),
        forall|j: int| 0 <= j < k ==> #[trigger] r[j] == i[j] - 2 * n[j] * d,
    ensures
        int_dot(r, n, k) == int_dot(i, n, k) - 2 * d * int_dot(n, n, k),
    decreases k,
{
    if k > 0 {
        lemma_int_dot_of_mirror(r, i, n, d, (k - 1) as nat);
        let x = i[k - 1] as int;
        let y = n[k - 1] as int;
        let s = int_dot(n, n, (k - 1) as nat);
        assert(r[k - 1] == x - 2 * y * d);
        assert((x - 2 * y * d) * y == x * y - 2 * d * (y * y)) by (nonlinear_arith);
        assert(2 * d * (s + y * y) == 2 * d * s + 2 * d * (y * y)) by (nonlinear_arith);
    }
}

} // verus!
