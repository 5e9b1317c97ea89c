//! A software rasterizer's verified core: multi-dimensional buffers, a
//! fixed-capacity stack, interpolation vectors, bounding boxes, the work
//! scheduling of the vertex and raster stages, and pixel packing.
pub mod pixel;
pub mod memory;
pub mod interp;
pub mod aabb;
pub mod control;
pub mod shader;
pub mod model;
pub mod texture;
pub mod cores;
pub mod fragment;
