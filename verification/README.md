# cairus

A 2D graphics library after the cairo drawing model, with its decision logic
verified by Verus.

## Layout

- `src/` — the verified library.
  - `float_bits`: coordinates are carried as IEEE-754 binary32 bit patterns
    (`f32::to_bits`); this module states, over bit patterns, the three float
    comparisons the path logic makes: NaN, below zero, and float equality.
  - `common_geometry`: `Point`, whose coordinates are such bit patterns.
  - `path`: `Path` and `Data`, the path state machine, with its model
    `PathModel` and the laws it keeps.
  - `context`: `Context`, the status-gated path operations and outlines
    (rectangles, squares and triangles are outlines through their corners).
  - `bo_trap`: the decisions of the trapezoid sweep — event order, placement of
    an edge in the sweep-line list, and the nonzero / even-odd fill rules.
  - `trapezoid_rasterizer`: filling the rows between a shape's outline pixels.
  - `splines`: which knots a spline's end slopes are taken between.
  - `convolution`: the vertex count of a pen polygon.
  - `status`, `compositor`, `surfaces`, `imagecrate`: the enums.
- `app/` — the floating-point side (colors, compositing, line geometry,
  sampling, the sweep itself, spline subdivision), which calls the library for
  its decisions.
- `tests/` — tests of the library; several compare the bit-pattern predicates
  with `f32` itself.
