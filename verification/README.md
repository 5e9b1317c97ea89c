# virtual_gpu

A software rasterizer. The library under `src/` is verified with Verus; the
program under `app/` opens a window, loads models and textures, and runs the
floating-point geometry and the shaders on worker threads.

Library modules:

- `memory::buffer` — `Buffer<T, N>`, an `N`-dimensional grid stored with the
  first dimension varying fastest; index linearization is proved in bounds and
  injective, so a write through `get_mut` changes exactly one cell.
- `memory::stack` — `stack::Vec<T, N>`, a stack of at most `N` items.
- `memory` — the `Raster` and `Array` aliases and their layout laws.
- `interp` — `Vector<T, N>` with component-wise `+` and scalar `*`, and
  `weighted_sum`.
- `aabb` — axis-aligned boxes and their (symmetric) overlap test.
- `control` — the vertex layout, the work counter that hands vertices and
  triangles to the cores, and the render-target check.
- `shader` — cull and depth-test modes.
- `fragment` — the per-fragment depth test and the colour/depth writes that
  the pipeline's switches allow.
- `model` — indexed meshes; `texture` — the checkerboard fallback texture;
  `pixel` — ARGB packing; `cores` — the vertex core.
