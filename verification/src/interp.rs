//! Interpolation helpers: fixed-size vectors of attributes and weighted sums.
use vstd::prelude::*;

use std::ops::{Add, Mul};
use vstd::std_specs::ops::{AddSpec, MulSpec};

verus! {

broadcast use vstd::array::group_array_axioms;

/// `init` plus the first `k` products `values[i] * weights[i]`, added from
/// the first on, as the element type defines its operators.
pub open spec fn weighted_fold<T, D>(values: Seq<T>, weights: Seq<D>, init: T, k: nat) -> T
    where
        T: Add<Output = T> + Mul<D, Output = T>,
    decreases k,
{
    if k == 0 {
        init
    } else {
        weighted_fold(values, weights, init, (k - 1) as nat).add_spec(
            values[k - 1].mul_spec(weights[k - 1]),
        )
    }
}

/// Every product and every partial sum of the fold starting from `init`
/// stays within what the operators accept.
pub open spec fn weighted_fold_defined<T, D>(
    values: Seq<T>,
    weights: Seq<D>,
    init: T,
    n: nat,
) -> bool
    where
        T: Add<Output = T> + Mul<D, Output = T>,
{
    forall|k: nat|
        k < n ==> {
            &&& values[k as int].mul_req(weights[k as int])
            &&& #[trigger] weighted_fold(values, weights, init, k).add_req(
                values[k as int].mul_spec(weights[k as int]),
            )
        }
}

/// The number of pairs a weighted sum takes: the shorter of the two lists.
pub open spec fn pair_count(a: nat, b: nat) -> nat {
    if a <= b {
        a
    } else {
        b
    }
}

/// Sums `values[i] * weights[i]` over the pairs the two lists share,
/// starting from `T::default()`.
pub fn weighted_sum<T, D>(values: &[T], weights: &[D]) -> (sum: T)
    where
        T: Default + Add<Output = T> + Mul<D, Output = T> + Copy,
        D: Copy,
    requires
        T::obeys_add_spec(),
        <T as MulSpec<D>>::obeys_mul_spec(),
        forall|init: T|
            call_ensures(T::default, (), init) ==> #[trigger] weighted_fold_defined(
                values@,
                weights@,
                init,
                pair_count(values@.len(), weights@.len()),
            ),
    ensures
        exists|init: T|
            {
                &&& call_ensures(T::default, (), init)
                &&& sum == #[trigger] weighted_fold(
                    values@,
                    weights@,
                    init,
                    pair_count(values@.len(), weights@.len()),
                )
            },
{
    let n = if values.len() <= weights.len() {
        values.len()
    } else {
        weights.len()
    };
    let init = T::default();
    assert(weighted_fold_defined(
        values@,
        weights@,
        init,
        pair_count(values@.len(), weights@.len()),
    ));
    let mut accumulator = init;
    for i in 0..n
        invariant
            n == pair_count(values@.len(), weights@.len()),
            n <= values@.len(),
            n <= weights@.len(),
            T::obeys_add_spec(),
            <T as MulSpec<D>>::obeys_mul_spec(),
            weighted_fold_defined(values@, weights@, init, n as nat),
            accumulator == weighted_fold(values@, weights@, init, i as nat),
    {
        assert(weighted_fold(values@, weights@, init, i as nat).add_req(
            values@[i as int].mul_spec(weights@[i as int]),
        ));
        let product = values[i] * weights[i];
        accumulator = accumulator + product;
    }
    accumulator
}

/// A fixed-size vector of `N` values.
#[derive(Debug, Clone, Copy, PartialEq, Eq, PartialOrd, Ord)]
pub struct Vector<T, const N: usize> {
    items: [T; N],
}

impl<T, const N: usize> View for Vector<T, N> {
    type V = Seq<T>;

    /// The components in order.
    closed spec fn view(&self) -> Seq<T> {
        self.items@
    }
}

impl<T, const N: usize> Vector<T, N> {
    /// The components as an array.
    pub fn to_array(self) -> (items: [T; N])
        ensures
            items@ == self@,
    {
        self.items
    }

}

/// A vector holds exactly `N` components.
pub broadcast proof fn lemma_vector_len<T, const N: usize>(v: Vector<T, N>)
    ensures
        #[trigger] v@.len() == N,
{
}

impl<T, const N: usize> Default for Vector<T, N> where T: Default + Clone + Copy {
    /// Every component is one and the same `T::default()`.
    fn default() -> (v: Self)
        ensures
            v@.len() == N,
            forall|i: int| 0 <= i < N ==> call_ensures(T::default, (), #[trigger] v@[i]),
            forall|i: int, j: int| 0 <= i < N && 0 <= j < N ==> v@[i] == v@[j],
    {
        let d = T::default();
        Vector { items: [d;N] }
    }
}

impl<T, const N: usize> From<[T; N]> for Vector<T, N> {
    fn from(items: [T; N]) -> (v: Self)
        ensures
            v@ == items@,
            v@.len() == N,
    {
        Vector { items }
    }
}

impl<T, const N: usize> vstd::std_specs::convert::FromSpecImpl<[T; N]> for Vector<T, N> {
    open spec fn obeys_from_spec() -> bool {
        true
    }

    closed spec fn from_spec(items: [T; N]) -> Self {
        Vector { items }
    }
}

impl<T, const N: usize> From<Vector<T, N>> for [T; N] {
    fn from(value: Vector<T, N>) -> (items: Self)
        ensures
            items@ == value@,
            items@.len() == N,
    {
        value.items
    }
}

impl<T, const N: usize> vstd::std_specs::convert::FromSpecImpl<Vector<T, N>> for [T; N] {
    open spec fn obeys_from_spec() -> bool {
        true
    }

    closed spec fn from_spec(value: Vector<T, N>) -> Self {
        value.items
    }
}

/// Component `i` of `v` is `f(i)`, for every `i` below `N`.
pub open spec fn components_are<T, const N: usize>(v: Vector<T, N>, f: spec_fn(int) -> T) -> bool {
    forall|i: int| 0 <= i < N ==> #[trigger] v@[i] == f(i)
}

/// The vector whose components are `f(i)`.
pub open spec fn vector_of<T, const N: usize>(f: spec_fn(int) -> T) -> Vector<T, N> {
    choose|v: Vector<T, N>| #[trigger] components_are(v, f)
}

/// Two vectors with the same components are equal.
pub proof fn lemma_vector_ext<T, const N: usize>(a: Vector<T, N>, b: Vector<T, N>)
    requires
        forall|i: int| 0 <= i < N ==> a@[i] == b@[i],
    ensures
        a == b,
{
    assert forall|i: int| 0 <= i < N implies a.items[i] == b.items[i] by {
        assert(a@[i] == b@[i]);
    }
    assert(a.items =~= b.items);
}

/// `vector_of(f)` is the vector `v` whose components are `f`.
pub proof fn lemma_vector_of<T, const N: usize>(v: Vector<T, N>, f: spec_fn(int) -> T)
    requires
        forall|i: int| 0 <= i < N ==> #[trigger] v@[i] == f(i),
    ensures
        vector_of::<T, N>(f) == v,
{
    assert(components_are(v, f));
    let w = vector_of::<T, N>(f);
    assert(components_are(w, f));
    lemma_vector_ext(v, w);
}

impl<T, const N: usize> Add for Vector<T, N> where T: Clone + Copy + Add<Output = T> {
    type Output = Self;

    /// The component-wise sum.
    fn add(self, rhs: Self) -> (sum: Self)
        ensures
            sum@.len() == N,
            T::obeys_add_spec() ==> forall|i: int|
                0 <= i < N ==> #[trigger] sum@[i] == self@[i].add_spec(rhs@[i]),
    {
        let mut out = self;
        for i in 0..N
            invariant
                forall|j: int| 0 <= j < N ==> #[trigger] self@[j].add_req(rhs@[j]),
                forall|j: int|
                    0 <= j < i ==> (T::obeys_add_spec() ==> #[trigger] out@[j] == self@[j].add_spec(
                        rhs@[j],
                    )),
                forall|j: int| i <= j < N ==> #[trigger] out@[j] == self@[j],
        {
            assert(self@[i as int].add_req(rhs@[i as int]));
            assert(out@[i as int] == self@[i as int]);
            assert(out.items@[i as int] == out@[i as int]);
            out.items[i] = out.items[i] + rhs.items[i];
        }
        proof {
            if T::obeys_add_spec() {
                lemma_vector_of(out, |i: int| self@[i].add_spec(rhs@[i]));
            }
        }
        out
    }
}

impl<T, const N: usize> vstd::std_specs::ops::AddSpecImpl for Vector<T, N> where T: Clone + Copy + Add<Output = T> {
    open spec fn obeys_add_spec() -> bool {
        T::obeys_add_spec()
    }

    open spec fn add_req(self, rhs: Self) -> bool {
        forall|i: int| 0 <= i < N ==> #[trigger] self@[i].add_req(rhs@[i])
    }

    open spec fn add_spec(self, rhs: Self) -> Self {
        vector_of(|i: int| self@[i].add_spec(rhs@[i]))
    }
}

impl<T, D, const N: usize> Mul<D> for Vector<T, N> where
    T: Clone + Copy + Mul<D, Output = T>,
    D: Clone + Copy,
 {
    type Output = Self;

    /// Every component scaled by `rhs`.
    fn mul(self, rhs: D) -> (product: Self)
        ensures
            product@.len() == N,
            <T as MulSpec<D>>::obeys_mul_spec() ==> forall|i: int|
                0 <= i < N ==> #[trigger] product@[i] == self@[i].mul_spec(rhs),
    {
        let mut out = self;
        for i in 0..N
            invariant
                forall|j: int| 0 <= j < N ==> #[trigger] self@[j].mul_req(rhs),
                forall|j: int|
                    0 <= j < i ==> (<T as MulSpec<D>>::obeys_mul_spec() ==> #[trigger] out@[j]
                        == self@[j].mul_spec(rhs)),
                forall|j: int| i <= j < N ==> #[trigger] out@[j] == self@[j],
        {
            assert(self@[i as int].mul_req(rhs));
            assert(out@[i as int] == self@[i as int]);
            out.items[i] = out.items[i] * rhs;
        }
        proof {
            if <T as MulSpec<D>>::obeys_mul_spec() {
                lemma_vector_of(out, |i: int| self@[i].mul_spec(rhs));
            }
        }
        out
    }
}

impl<T, D, const N: usize> vstd::std_specs::ops::MulSpecImpl<D> for Vector<T, N> where
    T: Clone + Copy + Mul<D, Output = T>,
    D: Clone + Copy,
 {
    open spec fn obeys_mul_spec() -> bool {
        <T as MulSpec<D>>::obeys_mul_spec()
    }

    open spec fn mul_req(self, rhs: D) -> bool {
        forall|i: int| 0 <= i < N ==> #[trigger] self@[i].mul_req(rhs)
    }

    open spec fn mul_spec(self, rhs: D) -> Self {
        vector_of(|i: int| self@[i].mul_spec(rhs))
    }
}

/// Turning an array into a vector and the vector back into an array gives
/// the array it started from.
pub proof fn law_array_round_trip<T, const N: usize>(items: [T; N], v: Vector<T, N>, back: [T; N])
    requires
        v@ == items@,
        back@ == v@,
    ensures
        back == items,
{
    assert(back =~= items);
}

impl<T, const N: usize> std::ops::Deref for Vector<T, N> {
    type Target = [T; N];

    fn deref(&self) -> (items: &[T; N])
        ensures
            items@ == self@,
    {
        &self.items
    }
}

impl<T, const N: usize> std::ops::DerefMut for Vector<T, N> {
    fn deref_mut(&mut self) -> (items: &mut [T; N])
        ensures
            items@ == old(self)@,
            final(self)@ == final(items)@,
    {
        &mut self.items
    }
}

} // verus!
