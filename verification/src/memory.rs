//! Storage of the rasterizer: multi-dimensional buffers and a fixed-capacity
//! stack.
pub mod buffer;
pub mod stack;

use vstd::prelude::*;

use buffer::{extent, extents_fit, lemma_extent_zero, offset, Buffer};

verus! {

/// A two-dimensional buffer: a render target or a texture.
pub type Raster<T> = Buffer<T, 2>;

/// A one-dimensional buffer.
pub type Array<T> = Buffer<T, 1>;

impl<T> Default for Buffer<T, 2> {
    /// An empty raster of extents `[0, 0]`.
    fn default() -> (raster: Self)
        ensures
            raster.wf(),
            raster.dims() == seq![0usize, 0usize],
            raster.cells() == Seq::<T>::empty(),
    {
        let size: [usize; 2] = [0, 0];
        proof {
            assert(size@ =~= seq![0usize, 0usize]);
            assert(extent(size@, 0) == 1);
            lemma_extent_zero(size@, 0, 1);
            lemma_extent_zero(size@, 0, 2);
            assert forall|k: nat| k <= 2 implies #[trigger] extent(size@, k) <= usize::MAX by {
                if k == 1 {
                } else if k == 2 {
                }
            }
        }
        Buffer::from_parts(size, std::vec::Vec::new())
    }
}

impl<T> Default for Buffer<T, 1> {
    /// An empty array of extent `[0]`.
    fn default() -> (array: Self)
        ensures
            array.wf(),
            array.dims() == seq![0usize],
            array.cells() == Seq::<T>::empty(),
    {
        let size: [usize; 1] = [0];
        proof {
            assert(size@ =~= seq![0usize]);
            assert(extent(size@, 0) == 1);
            lemma_extent_zero(size@, 0, 1);
            assert forall|k: nat| k <= 1 implies #[trigger] extent(size@, k) <= usize::MAX by {
                if k == 1 {
                }
            }
        }
        Buffer::from_parts(size, std::vec::Vec::new())
    }
}

/// Cell `(x, y)` of a raster.
pub open spec fn raster_at<T>(raster: Raster<T>, x: usize, y: usize) -> T {
    raster.at(seq![x, y])
}

proof fn mul_one(v: nat)
    ensures
        v * 1 == v,
        1 * v == v,
{
}

/// A raster's extents fit in a `usize` when its area does; it then has
/// `width * height` cells.
pub proof fn lemma_raster_extents(size: [usize; 2])
    requires
        size[0] * size[1] <= usize::MAX,
    ensures
        extents_fit(size@, 2),
        extent(size@, 2) == size[0] * size[1],
{
    let s = size@;
    assert(extent(s, 0) == 1);
    mul_one(s[0] as nat);
    assert(extent(s, 1) == s[0] as nat);
    assert(extent(s, 2) == (s[0] as nat) * (s[1] as nat));
    assert forall|k: nat| k <= 2 implies #[trigger] extent(s, k) <= usize::MAX by {
        if k == 1 {
        } else if k == 2 {
        }
    }
}

/// An array's extent always fits; it has `size[0]` cells.
pub proof fn lemma_array_extents(size: [usize; 1])
    ensures
        extents_fit(size@, 1),
        extent(size@, 1) == size[0],
{
    let s = size@;
    assert(extent(s, 0) == 1);
    mul_one(s[0] as nat);
    assert(extent(s, 1) == s[0] as nat);
    assert forall|k: nat| k <= 1 implies #[trigger] extent(s, k) <= usize::MAX by {
        if k == 1 {
        }
    }
}

/// A raster is stored row after row: cell `(x, y)` sits at `x + y * width`.
pub proof fn law_raster_position<T>(raster: Raster<T>, x: usize, y: usize)
    requires
        raster.wf(),
    ensures
        raster.position(seq![x, y]) == x + y * raster.dims()[0],
{
    let idx = seq![x, y];
    let dims = raster.dims();
    assert(extent(dims, 0) == 1);
    mul_one(dims[0] as nat);
    assert(extent(dims, 1) == dims[0] as nat);
    assert(offset(idx, dims, 0) == 0);
    mul_one(x as nat);
    assert(offset(idx, dims, 1) == x as nat);
    assert(offset(idx, dims, 2) == x + (y as nat) * (dims[0] as nat));
}

/// An array is stored in index order: cell `[i]` sits at `i`.
pub proof fn law_array_position<T>(array: Array<T>, i: usize)
    requires
        array.wf(),
    ensures
        array.position(seq![i]) == i,
{
    let idx = seq![i];
    assert(offset(idx, array.dims(), 0) == 0);
    assert(extent(array.dims(), 0) == 1);
    mul_one(i as nat);
    assert(offset(idx, array.dims(), 1) == i as nat);
}

} // verus!
