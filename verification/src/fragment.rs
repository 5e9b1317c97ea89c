//! The per-fragment step of the raster stage: the depth test against the
//! depth target, and the writes to the colour and depth targets that the
//! pipeline's switches allow.
use vstd::prelude::*;

use vstd::std_specs::cmp::{PartialOrdIs, PartialOrdSpec};

use crate::memory::buffer::law_positions_distinct;
use crate::memory::Raster;
use crate::shader::{depth_passes, DepthMode};

verus! {

/// Whether a fragment at `distance` that covers cell `at` survives the
/// depth test of `mode`; the depth target is read only where the mode tests.
pub fn depth_test<D: PartialOrd>(depth: &Raster<D>, at: [usize; 2], distance: &D, mode: DepthMode) -> (pass: bool)
    requires
        depth.wf(),
        mode != DepthMode::NoWrite ==> depth.holds(at@),
    ensures
        mode == DepthMode::NoWrite ==> pass,
        D::obeys_partial_cmp_spec() ==> pass == depth_passes(mode, *distance, depth.at(at@)),
{
    match mode {
        DepthMode::NoWrite => true,
        _ => {
            let stored = depth.get(at);
            mode.passes(distance, stored)
        },
    }
}

/// The target after a fragment's write: cell `at` set to `value` where the
/// write is enabled, the target as it was otherwise.
pub open spec fn written<T>(before: Raster<T>, at: Seq<usize>, value: T, enabled: bool) -> Seq<T> {
    if enabled {
        before.cells().update(before.position(at), value)
    } else {
        before.cells()
    }
}

/// Writes a fragment that passed the depth test: its pixel into the colour
/// target where `pixel_write` is on, its distance into the depth target
/// where `depth_write` is on. No other cell changes, and a target whose
/// write is off is left as it was.
pub fn write_fragment<P, D>(
    color: &mut Raster<P>,
    depth: &mut Raster<D>,
    at: [usize; 2],
    distance: D,
    pixel: P,
    pixel_write: bool,
    depth_write: bool,
)
    requires
        old(color).wf(),
        old(depth).wf(),
        old(color).holds(at@),
        depth_write ==> old(depth).holds(at@),
    ensures
        final(color).wf(),
        final(depth).wf(),
        final(color).dims() == old(color).dims(),
        final(depth).dims() == old(depth).dims(),
        final(color).cells() == written(*old(color), at@, pixel, pixel_write),
        final(depth).cells() == written(*old(depth), at@, distance, depth_write),
        !pixel_write ==> *final(color) == *old(color),
        !depth_write ==> *final(depth) == *old(depth),
        pixel_write ==> final(color).at(at@) == pixel,
        depth_write ==> final(depth).at(at@) == distance,
{
    if pixel_write {
        let cell = color.get_mut(at);
        *cell = pixel;
    }
    if depth_write {
        let cell = depth.get_mut(at);
        *cell = distance;
    }
}

/// A depth write after a passed test never moves the stored depth against
/// the test: under `WriteGreater` it does not grow, under `WriteLess` it does
/// not shrink; and every other cell keeps its depth. This holds for depth
/// types whose comparison obeys its specification.
pub proof fn law_depth_follows_mode<D: PartialOrd>(
    before: Raster<D>,
    after: Raster<D>,
    at: Seq<usize>,
    distance: D,
    mode: DepthMode,
    other: Seq<usize>,
)
    requires
        before.wf(),
        at.len() == 2,
        other.len() == 2,
        before.holds(at),
        before.holds(other),
        depth_passes(mode, distance, before.at(at)),
        after.dims() == before.dims(),
        after.cells() == written(before, at, distance, true),
    ensures
        mode == DepthMode::WriteGreater ==> !after.at(at).is_gt(&before.at(at)),
        mode == DepthMode::WriteLess ==> !after.at(at).is_lt(&before.at(at)),
        other != at ==> after.at(other) == before.at(other),
{
    law_positions_distinct(before, at, other);
    law_positions_distinct(before, other, at);
}

} // verus!
