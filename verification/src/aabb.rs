//! Axis-aligned bounding boxes.
use vstd::prelude::*;

use vstd::laws_cmp::obeys_partial_cmp_spec_properties;
use vstd::laws_eq::obeys_eq_spec_properties;
use vstd::std_specs::cmp::{PartialEqSpec, PartialOrdIs, PartialOrdSpec};

verus! {

broadcast use vstd::array::group_array_axioms;

/// An axis-aligned box in `N` dimensions, from corner `low` to corner
/// `high`.
#[derive(Debug)]
pub struct AaBb<T, const N: usize> {
    low: [T; N],
    high: [T; N],
}

impl<T, const N: usize> View for AaBb<T, N> {
    type V = (Seq<T>, Seq<T>);

    /// The low corner and the high corner.
    closed spec fn view(&self) -> (Seq<T>, Seq<T>) {
        (self.low@, self.high@)
    }
}

/// In every dimension the two boxes' ranges meet: each one starts no later
/// than the other ends.
pub open spec fn boxes_overlap<T: PartialOrd, const N: usize>(a: AaBb<T, N>, b: AaBb<T, N>) -> bool {
    forall|d: int|
        #![trigger a@.0[d]]
        0 <= d < N ==> a@.0[d].is_le(&b@.1[d]) && a@.1[d].is_ge(&b@.0[d])
}

impl<T, const N: usize> AaBb<T, N> {
    /// The box from `low` to `high`.
    pub fn new(low: [T; N], high: [T; N]) -> (b: Self)
        ensures
            b@.0 == low@,
            b@.1 == high@,
            b@.0.len() == N,
            b@.1.len() == N,
    {
        AaBb { low, high }
    }

    /// Whether this box and `other` overlap; boxes that only touch overlap.
    pub fn overlaps(&self, other: &Self) -> (overlap: bool)
        where
            T: PartialOrd,
        ensures
            T::obeys_partial_cmp_spec() ==> overlap == boxes_overlap(*self, *other),
    {
        for dim in 0..N
            invariant
                T::obeys_partial_cmp_spec() ==> forall|d: int|
                    #![trigger self@.0[d]]
                    0 <= d < dim ==> self@.0[d].is_le(&other@.1[d]) && self@.1[d].is_ge(
                        &other@.0[d],
                    ),
        {
            let below = self.low[dim] <= other.high[dim];
            let above = self.high[dim] >= other.low[dim];
            if !(below && above) {
                return false;
            }
        }
        true
    }
}

impl<T, const N: usize> Default for AaBb<T, N> where T: Default + Clone + Copy {
    /// The box whose corners both lie at `T::default()` in every dimension.
    fn default() -> (b: Self)
        ensures
            b@.0.len() == N,
            b@.1 == b@.0,
            forall|i: int| 0 <= i < N ==> call_ensures(T::default, (), #[trigger] b@.0[i]),
    {
        let d = T::default();
        let low = [d;N];
        let high = [d;N];
        assert(low@ =~= high@);
        Self::new(low, high)
    }
}

/// Overlap does not depend on the order in which the two boxes are taken,
/// for element types whose comparison is a consistent partial order.
pub proof fn law_overlap_symmetric<T: PartialOrd, const N: usize>(a: AaBb<T, N>, b: AaBb<T, N>)
    requires
        T::obeys_partial_cmp_spec(),
        obeys_partial_cmp_spec_properties::<T>(),
    ensures
        boxes_overlap(a, b) == boxes_overlap(b, a),
{
    lemma_le_ge_flip::<T>();
}

/// A box overlaps itself exactly when its low corner lies at or below its
/// high corner in every dimension, for element types whose comparison is a
/// consistent partial order.
pub proof fn law_overlap_self<T: PartialOrd, const N: usize>(a: AaBb<T, N>)
    requires
        T::obeys_partial_cmp_spec(),
        obeys_partial_cmp_spec_properties::<T>(),
    ensures
        boxes_overlap(a, a) <==> forall|d: int| #![trigger a@.0[d]] 0 <= d < N ==> a@.0[d].is_le(&a@.1[d]),
{
    lemma_le_ge_flip::<T>();
    if forall|d: int| #![trigger a@.0[d]] 0 <= d < N ==> a@.0[d].is_le(&a@.1[d]) {
        assert forall|d: int| #![trigger a@.0[d]] 0 <= d < N implies a@.0[d].is_le(&a@.1[d])
            && a@.1[d].is_ge(&a@.0[d]) by {
            assert(a@.0[d].is_le(&a@.1[d]));
        }
    }
}

/// `x <= y` exactly when `y >= x`, under a consistent partial order.
proof fn lemma_le_ge_flip<T: PartialOrd>()
    requires
        obeys_partial_cmp_spec_properties::<T>(),
    ensures
        forall|x: T, y: T| #![trigger x.partial_cmp_spec(&y)] x.is_le(&y) <==> y.is_ge(&x),
{
    reveal(obeys_partial_cmp_spec_properties);
    reveal(obeys_eq_spec_properties);
    assert forall|x: T, y: T| #![trigger x.partial_cmp_spec(&y)] x.is_le(&y) <==> y.is_ge(&x) by {
        if x.eq_spec(&y) {
            assert(y.eq_spec(&x));
        }
        if y.eq_spec(&x) {
            assert(x.eq_spec(&y));
        }
    }
}

} // verus!
