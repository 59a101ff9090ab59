# luxlib

A small 2D application and rendering library: a window with a frame loop, keyboard and mouse
input, and drawing of rectangles, textures and text through wgpu.

- `src/` is the verified part (Verus): the keyboard and mouse state machine (`input`), the
  application's event handling and frame pacing (`app`), the window, texture, sampler and
  pipeline-layout settings (`app`, `texture`, `pipeline`), shader stage sets (`bind`), the
  triangle fan of circle meshes (`model`) and the error messages (`lib.rs`).
- `app/` is the host side: the winit event loop, wgpu and glyphon rendering, reading image files,
  and everything that computes with floating point (colours, vertices, collision tests).
- `tests/` runs the library on concrete values.
