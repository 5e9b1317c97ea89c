//! The per-pipeline switches of the raster stage: which triangles are
//! culled and which fragments pass the depth test.
use vstd::prelude::*;

use vstd::std_specs::cmp::{PartialOrdIs, PartialOrdSpec};

verus! {

/// Which triangles the raster stage skips.
#[derive(Debug, Clone, Copy, PartialEq, Eq)]
pub enum CullMode {
    /// Keep every triangle.
    Off,
    /// Skip triangles wound clockwise on screen.
    Front,
    /// Skip triangles wound counter-clockwise on screen.
    Back,
}

impl Default for CullMode {
    fn default() -> (mode: Self)
        ensures
            mode == CullMode::Off,
    {
        CullMode::Off
    }
}

impl CullMode {
    /// Whether a triangle is skipped, given whether its screen winding is
    /// clockwise (`cw`) and whether it is counter-clockwise (`ccw`).
    pub fn culls(&self, cw: bool, ccw: bool) -> (skip: bool)
        ensures
            skip == match *self {
                CullMode::Off => false,
                CullMode::Front => cw,
                CullMode::Back => ccw,
            },
    {
        match self {
            CullMode::Front => cw,
            CullMode::Back => ccw,
            CullMode::Off => false,
        }
    }
}

/// How a fragment's depth is tested against the depth buffer.
#[derive(Debug, Clone, Copy, PartialEq, Eq)]
pub enum DepthMode {
    /// Keep fragments that are not farther than the stored depth.
    WriteGreater,
    /// Keep fragments that are not nearer than the stored depth.
    WriteLess,
    /// Keep every fragment.
    NoWrite,
}

impl Default for DepthMode {
    fn default() -> (mode: Self)
        ensures
            mode == DepthMode::WriteGreater,
    {
        DepthMode::WriteGreater
    }
}

/// The depth test's verdict on a fragment at `distance` over a stored
/// depth `stored`.
pub open spec fn depth_passes<T: PartialOrd>(mode: DepthMode, distance: T, stored: T) -> bool {
    match mode {
        DepthMode::WriteGreater => !distance.is_gt(&stored),
        DepthMode::WriteLess => !distance.is_lt(&stored),
        DepthMode::NoWrite => true,
    }
}

/// The depth modes, for depth types whose comparison obeys its
/// specification: `NoWrite` keeps every fragment; `WriteGreater` keeps a
/// fragment that is nearer than or as near as the stored depth and drops one
/// that is farther; `WriteLess` keeps one that is farther than or as far as
/// the stored depth and drops one that is nearer.
pub proof fn law_depth_modes<T: PartialOrd>(distance: T, stored: T)
    requires
        T::obeys_partial_cmp_spec(),
    ensures
        depth_passes(DepthMode::NoWrite, distance, stored),
        distance.is_le(&stored) ==> depth_passes(DepthMode::WriteGreater, distance, stored),
        distance.is_gt(&stored) ==> !depth_passes(DepthMode::WriteGreater, distance, stored),
        distance.is_ge(&stored) ==> depth_passes(DepthMode::WriteLess, distance, stored),
        distance.is_lt(&stored) ==> !depth_passes(DepthMode::WriteLess, distance, stored),
{
}

/// On integer depths the modes are the plain comparisons: `WriteGreater`
/// keeps `distance <= stored`, `WriteLess` keeps `distance >= stored`; in
/// particular a fragment at the stored depth passes both.
pub proof fn law_depth_integers(distance: i64, stored: i64)
    ensures
        depth_passes(DepthMode::WriteGreater, distance, stored) == (distance <= stored),
        depth_passes(DepthMode::WriteLess, distance, stored) == (distance >= stored),
        depth_passes(DepthMode::WriteGreater, stored, stored),
        depth_passes(DepthMode::WriteLess, stored, stored),
{
}

impl DepthMode {
    /// Whether a fragment at `distance` survives the depth test against the
    /// stored depth `stored`.
    pub fn passes<T: PartialOrd>(&self, distance: &T, stored: &T) -> (keep: bool)
        ensures
            *self == DepthMode::NoWrite ==> keep,
            T::obeys_partial_cmp_spec() ==> keep == depth_passes(*self, *distance, *stored),
    {
        match self {
            DepthMode::WriteGreater => !(distance > stored),
            DepthMode::WriteLess => !(distance < stored),
            DepthMode::NoWrite => true,
        }
    }
}

} // verus!
