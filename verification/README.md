# skie_draw

The drawing model of a small 2D GPU canvas, verified with Verus: geometry on
integer-like values, brushes and colors, the recording of drawing
instructions in stages, batching of instructions by texture, meshes and draw
lists, paths, the texture atlas bookkeeping, and the effect queue of the
application context.

## Layout

- `src/math`: `Vec2`, `Size`, `Rect` and device pixels, generic over the
  number type, with their operators and laws (union, clamping, inverse of add
  and sub, perpendicular normals).
- `src/paint`: colors, brushes, textures and atlas keys, the atlas storage
  (tiles placed by `etagere`'s bucketed allocator), the instruction batcher,
  render lists, meshes, paths and the checkerboard texture.
- `src/canvas`: the staged render list, the canvas recorder (save, restore,
  reset) and the cache of atlas tile infos.
- `src/scene`: the quad draw list and the scene of primitives.
- `src/effects`: when the application's effects are sent to the event loop.
- `src/buffers`: how GPU buffers grow and where each mesh's data lies in them.
- `app/`: what needs the GPU, floating point or the event loop: GPU textures
  of the atlas, vertices, matrices, curves, circles and arcs of paths, the
  surface configuration and the application context around the effect queue.
- `tests/`: the tests, run against the compiled library.
