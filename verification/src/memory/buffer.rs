use vstd::prelude::*;

use vstd::arithmetic::div_mod::lemma_fundamental_div_mod_converse;

verus! {

/// Number of cells spanned by the first `k` dimensions of `size`
/// (the product of their extents).
pub open spec fn extent(size: Seq<usize>, k: nat) -> nat
    decreases k,
{
    if k == 0 {
        1
    } else {
        extent(size, (k - 1) as nat) * (size[k - 1] as nat)
    }
}

/// Position of `indices` in a buffer laid out with the first dimension
/// varying fastest, counting only the first `k` dimensions.
pub open spec fn offset(indices: Seq<usize>, size: Seq<usize>, k: nat) -> nat
    decreases k,
{
    if k == 0 {
        0
    } else {
        offset(indices, size, (k - 1) as nat) + (indices[k - 1] as nat) * extent(
            size,
            (k - 1) as nat,
        )
    }
}

/// Every one of the first `k` indices lies below its extent.
pub open spec fn within(indices: Seq<usize>, size: Seq<usize>, k: nat) -> bool {
    forall|d: int| 0 <= d < k ==> #[trigger] indices[d] < size[d]
}

/// Every partial product of the extents fits in a `usize`.
pub open spec fn extents_fit(size: Seq<usize>, n: nat) -> bool {
    forall|k: nat| k <= n ==> #[trigger] extent(size, k) <= usize::MAX
}

pub proof fn lemma_extent_positive(size: Seq<usize>, k: nat)
    requires
        forall|d: int| 0 <= d < k ==> #[trigger] size[d] > 0,
    ensures
        extent(size, k) > 0,
    decreases k,
{
    if k > 0 {
        lemma_extent_positive(size, (k - 1) as nat);
        let e = extent(size, (k - 1) as nat);
        let s = size[k - 1] as nat;
        assert(e * s > 0) by (nonlinear_arith)
            requires
                e > 0,
                s > 0,
        ;
    }
}

/// A buffer with an empty dimension has no cells.
pub proof fn lemma_extent_zero(size: Seq<usize>, d: nat, k: nat)
    requires
        d < k,
        size[d as int] == 0,
    ensures
        extent(size, k) == 0,
    decreases k,
{
    let e = extent(size, (k - 1) as nat);
    let s = size[k - 1] as nat;
    if d < k - 1 {
        lemma_extent_zero(size, d, (k - 1) as nat);
    }
    assert(e * s == 0) by (nonlinear_arith)
        requires
            e == 0 || s == 0,
    ;
}

/// Extents only grow as further (non-empty) dimensions are taken in.
pub proof fn lemma_extent_monotone(size: Seq<usize>, j: nat, k: nat)
    requires
        j <= k,
        forall|d: int| 0 <= d < k ==> #[trigger] size[d] > 0,
    ensures
        extent(size, j) <= extent(size, k),
    decreases k - j,
{
    if j < k {
        lemma_extent_monotone(size, j, (k - 1) as nat);
        lemma_extent_positive(size, (k - 1) as nat);
        let e = extent(size, (k - 1) as nat);
        let s = size[k - 1] as nat;
        assert(e <= e * s) by (nonlinear_arith)
            requires
                s >= 1,
        ;
    }
}

/// In-bounds indices land strictly inside the cells they span.
pub proof fn lemma_offset_bound(indices: Seq<usize>, size: Seq<usize>, k: nat)
    requires
        within(indices, size, k),
    ensures
        offset(indices, size, k) < extent(size, k),
    decreases k,
{
    if k > 0 {
        lemma_offset_bound(indices, size, (k - 1) as nat);
        let o = offset(indices, size, (k - 1) as nat);
        let e = extent(size, (k - 1) as nat);
        let i = indices[k - 1] as nat;
        let s = size[k - 1] as nat;
        assert(indices[k - 1] < size[k - 1]);
        assert(o + i * e < e * s) by (nonlinear_arith)
            requires
                o < e,
                i < s,
        {
            assert(i * e <= (s - 1) * e) by (nonlinear_arith)
                requires
                    0 <= i <= s - 1,
                    e >= 0,
            {
                vstd::arithmetic::mul::lemma_mul_inequality(i as int, s - 1, e as int);
            }
        }
    }
}

/// Two in-bounds index tuples with the same position are the same tuple.
pub proof fn lemma_offset_injective(a: Seq<usize>, b: Seq<usize>, size: Seq<usize>, k: nat)
    requires
        within(a, size, k),
        within(b, size, k),
        offset(a, size, k) == offset(b, size, k),
    ensures
        forall|d: int| 0 <= d < k ==> a[d] == b[d],
    decreases k,
{
    if k > 0 {
        let j = (k - 1) as nat;
        lemma_offset_bound(a, size, j);
        lemma_offset_bound(b, size, j);
        let e = extent(size, j) as int;
        let x = offset(a, size, k) as int;
        assert(x == (a[j as int] as int) * e + offset(a, size, j));
        assert(x == (b[j as int] as int) * e + offset(b, size, j));
        lemma_fundamental_div_mod_converse(x, e, a[j as int] as int, offset(a, size, j) as int);
        lemma_fundamental_div_mod_converse(x, e, b[j as int] as int, offset(b, size, j) as int);
        lemma_offset_injective(a, b, size, j);
    }
}

/// An `N`-dimensional grid of cells, stored with the first dimension
/// varying fastest.
#[derive(Debug)]
pub struct Buffer<T, const N: usize> {
    size: [usize; N],
    items: std::vec::Vec<T>,
}

impl<T, const N: usize> View for Buffer<T, N> {
    type V = (Seq<usize>, Seq<T>);

    /// The extents of the buffer and its cells in storage order.
    closed spec fn view(&self) -> (Seq<usize>, Seq<T>) {
        (self.size@, self.items@)
    }
}

impl<T, const N: usize> Buffer<T, N> {
    /// The extent of each dimension.
    pub open spec fn dims(&self) -> Seq<usize> {
        self@.0
    }

    /// The cells in storage order.
    pub open spec fn cells(&self) -> Seq<T> {
        self@.1
    }

    /// The cells are exactly as many as the extents span.
    pub open spec fn wf(&self) -> bool {
        &&& self.dims().len() == N
        &&& self.cells().len() == extent(self.dims(), N as nat)
    }

    /// `indices` addresses a cell of this buffer.
    pub open spec fn holds(&self, indices: Seq<usize>) -> bool {
        within(indices, self.dims(), N as nat)
    }

    /// The storage position of `indices`.
    pub open spec fn position(&self, indices: Seq<usize>) -> int {
        offset(indices, self.dims(), N as nat) as int
    }

    /// The cell that `indices` addresses.
    pub open spec fn at(&self, indices: Seq<usize>) -> T {
        self.cells()[self.position(indices)]
    }

    /// A buffer of the given extents whose cells are each a fresh
    /// `T::default()`.
    pub fn new(size: [usize; N]) -> (buffer: Self)
        where
            T: Default,
        requires
            extents_fit(size@, N as nat),
        ensures
            buffer.wf(),
            buffer.dims() == size@,
            forall|i: int|
                0 <= i < buffer.cells().len() ==> call_ensures(
                    T::default,
                    (),
                    #[trigger] buffer.cells()[i],
                ),
    {
        let total = Self::cell_count(&size);
        let mut items: std::vec::Vec<T> = std::vec::Vec::new();
        let mut i: usize = 0;
        while i < total
            invariant
                i <= total,
                items@.len() == i,
                forall|j: int| 0 <= j < i ==> call_ensures(T::default, (), #[trigger] items@[j]),
            decreases total - i,
        {
            let item = T::default();
            items.push(item);
            i = i + 1;
        }
        Buffer { size, items }
    }

    /// The product of the extents.
    fn cell_count(size: &[usize; N]) -> (total: usize)
        requires
            extents_fit(size@, N as nat),
        ensures
            total == extent(size@, N as nat),
    {
        let mut total: usize = 1;
        for d in 0..N
            invariant
                extents_fit(size@, N as nat),
                total == extent(size@, d as nat),
        {
            assert(extent(size@, (d + 1) as nat) <= usize::MAX);
            total = total * size[d];
        }
        total
    }

    /// A buffer of the given extents holding `items` in storage order.
    pub fn from_parts(size: [usize; N], items: std::vec::Vec<T>) -> (buffer: Self)
        requires
            extents_fit(size@, N as nat),
            extent(size@, N as nat) == items@.len(),
        ensures
            buffer.wf(),
            buffer.dims() == size@,
            buffer.cells() == items@,
    {
        Buffer { size, items }
    }

    /// The extent of each dimension.
    pub fn size(&self) -> (size: [usize; N])
        ensures
            size@ == self.dims(),
    {
        self.size
    }

    /// Sets every cell to `fill`.
    pub fn fill(&mut self, fill: T)
        where
            T: Copy,
        ensures
            old(self).wf() ==> final(self).wf(),
            final(self).dims() == old(self).dims(),
            final(self).cells() == Seq::new(old(self).cells().len(), |i: int| fill),
    {
        let n = self.items.len();
        for i in 0..n
            invariant
                n == self.items@.len(),
                self.size@ == old(self).size@,
                old(self).cells().len() == n,
                forall|j: int| 0 <= j < i ==> self.items@[j] == fill,
        {
            self.items[i] = fill;
        }
        assert(self.cells() =~= Seq::new(old(self).cells().len(), |i: int| fill));
    }

    /// Whether `indices` addresses a cell of this buffer.
    pub fn surrounds(&self, indices: [usize; N]) -> (inside: bool)
        ensures
            inside == self.holds(indices@),
    {
        for d in 0..N
            invariant
                forall|j: int| 0 <= j < d ==> indices@[j] < self.size@[j],
        {
            if indices[d] >= self.size[d] {
                return false;
            }
        }
        true
    }

    /// The storage position of the cell that `indices` addresses.
    pub fn linearlize(&self, indices: [usize; N]) -> (index: usize)
        requires
            self.wf(),
            self.holds(indices@),
        ensures
            index == self.position(indices@),
            index < self.cells().len(),
    {
        proof {
            assert forall|d: int| 0 <= d < N implies #[trigger] self.dims()[d] > 0 by {
                assert(indices@[d] < self.dims()[d]);
            }
            lemma_offset_bound(indices@, self.dims(), N as nat);
        }
        let mut index: usize = 0;
        let mut stride: usize = 1;
        for dim in 0..N
            invariant
                self.wf(),
                self.holds(indices@),
                forall|d: int| 0 <= d < N ==> #[trigger] self.dims()[d] > 0,
                index == offset(indices@, self.dims(), dim as nat),
                stride == extent(self.dims(), dim as nat),
        {
            proof {
                assert(within(indices@, self.dims(), (dim + 1) as nat));
                lemma_offset_bound(indices@, self.dims(), (dim + 1) as nat);
                lemma_extent_monotone(self.dims(), (dim + 1) as nat, N as nat);
                assert(offset(indices@, self.dims(), (dim + 1) as nat) == index + (
                indices@[dim as int] as nat) * stride);
                assert(extent(self.dims(), (dim + 1) as nat) == stride * (
                self.dims()[dim as int] as nat));
                assert(self.cells().len() == self.items.len());
            }
            index = index + indices[dim] * stride;
            stride = stride * self.size[dim];
        }
        index
    }

    /// The cell that `indices` addresses.
    pub fn get(&self, indices: [usize; N]) -> (item: &T)
        requires
            self.wf(),
            self.holds(indices@),
        ensures
            *item == self.at(indices@),
    {
        let idx = self.linearlize(indices);
        &self.items[idx]
    }

    /// The cell that `indices` addresses, or `None` where it lies outside.
    pub fn try_get(&self, indices: [usize; N]) -> (item: Option<&T>)
        requires
            self.wf(),
        ensures
            item is Some <==> self.holds(indices@),
            item matches Some(v) ==> *v == self.at(indices@),
    {
        if !self.surrounds(indices) {
            return None;
        }
        Some(self.get(indices))
    }

    /// Mutable access to the cell that `indices` addresses; only that cell
    /// can change.
    pub fn get_mut(&mut self, indices: [usize; N]) -> (item: &mut T)
        requires
            old(self).wf(),
            old(self).holds(indices@),
        ensures
            final(self).wf(),
            0 <= old(self).position(indices@) < old(self).cells().len(),
            *item == old(self).at(indices@),
            final(self).dims() == old(self).dims(),
            final(self).cells() == old(self).cells().update(
                old(self).position(indices@),
                *final(item),
            ),
    {
        let idx = self.linearlize(indices);
        &mut self.items[idx]
    }

    /// Mutable access to the cell that `indices` addresses, or `None` (and
    /// no change) where it lies outside.
    pub fn try_get_mut(&mut self, indices: [usize; N]) -> (item: Option<&mut T>)
        requires
            old(self).wf(),
        ensures
            final(self).wf(),
            item is Some <==> old(self).holds(indices@),
            item is Some ==> 0 <= old(self).position(indices@) < old(self).cells().len(),
            item is None ==> *final(self) == *old(self),
            item matches Some(v) ==> *v == old(self).at(indices@),
            item is Some ==> final(self).dims() == old(self).dims(),
            item is Some ==> final(self).cells() == old(self).cells().update(
                old(self).position(indices@),
                *final(item->0),
            ),
    {
        if !self.surrounds(indices) {
            return None;
        }
        Some(self.get_mut(indices))
    }

    /// The cells in storage order.
    pub fn as_slice(&self) -> (items: &[T])
        ensures
            items@ == self.cells(),
    {
        self.items.as_slice()
    }
}

impl<T, const N: usize> std::ops::Deref for Buffer<T, N> {
    type Target = [T];

    /// The cells in storage order.
    fn deref(&self) -> (items: &[T])
        ensures
            items@ == self.cells(),
    {
        self.items.as_slice()
    }
}

impl<T, const N: usize> std::ops::DerefMut for Buffer<T, N> {
    /// Mutable access to the cells in storage order; the extents stay as
    /// they are.
    fn deref_mut(&mut self) -> (items: &mut [T])
        ensures
            items@ == old(self).cells(),
            final(self).dims() == old(self).dims(),
            final(self).cells() == final(items)@,
    {
        self.items.as_mut_slice()
    }
}

/// Every cell that in-bounds indices address lies in storage, and distinct
/// in-bounds indices address distinct cells.
pub proof fn law_positions_distinct<T, const N: usize>(
    buffer: Buffer<T, N>,
    a: Seq<usize>,
    b: Seq<usize>,
)
    requires
        buffer.wf(),
        a.len() == N,
        b.len() == N,
        buffer.holds(a),
        buffer.holds(b),
    ensures
        0 <= buffer.position(a) < buffer.cells().len(),
        a != b ==> buffer.position(a) != buffer.position(b),
{
    lemma_offset_bound(a, buffer.dims(), N as nat);
    if buffer.position(a) == buffer.position(b) {
        lemma_offset_injective(a, b, buffer.dims(), N as nat);
        assert(a =~= b);
    }
}

/// After a write through `get_mut` at `written`, reading at `read` gives the
/// written value when the two index tuples agree, and the old cell
/// otherwise.
pub proof fn law_write_then_read<T, const N: usize>(
    before: Buffer<T, N>,
    after: Buffer<T, N>,
    written: Seq<usize>,
    value: T,
    read: Seq<usize>,
)
    requires
        before.wf(),
        written.len() == N,
        read.len() == N,
        before.holds(written),
        before.holds(read),
        after.dims() == before.dims(),
        after.cells() == before.cells().update(before.position(written), value),
    ensures
        after.wf(),
        after.holds(read),
        after.at(read) == (if read == written {
            value
        } else {
            before.at(read)
        }),
{
    law_positions_distinct(before, written, read);
    law_positions_distinct(before, read, written);
}

/// After `fill`, every in-bounds cell holds the fill value.
pub proof fn law_fill_then_read<T, const N: usize>(
    before: Buffer<T, N>,
    after: Buffer<T, N>,
    fill: T,
    read: Seq<usize>,
)
    requires
        before.wf(),
        read.len() == N,
        before.holds(read),
        after.dims() == before.dims(),
        after.cells() == Seq::new(before.cells().len(), |i: int| fill),
    ensures
        after.wf(),
        after.at(read) == fill,
{
    law_positions_distinct(before, read, read);
}

} // verus!
