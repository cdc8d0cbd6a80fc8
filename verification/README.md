# game_engine

A small wgpu/winit rendering engine whose decisions are verified with Verus.

- `src/` — the verified library:
  - `runner.rs`: the application's event state machine (window creation,
    frames, resizes, exit) and its frame clock;
  - `surface.rs`: the surface configuration, the resize rule, the colour
    (sRGB) format and the depth texture's size;
  - `pipeline.rs`: render pipeline descriptions, the built-in 3-D pipeline,
    the custom pipeline builder, bind group layouts and bind groups, and buffer
    usages;
  - `pass.rs`: the calls a frame's render pass receives for each drawing
    request (clearing and camera binding included), the per-mesh draw calls,
    and the instanced-model record;
  - `mesh.rs`: assembling a model file's meshes into vertex and index buffer
    contents.
- `app/` — the program around it: winit's event loop, the wgpu device,
  surface, buffers and pipelines, file loading (OBJ/MTL through `tobj`, images),
  the camera's matrix math, and the example `main`.
- `tests/` — tests of the library on concrete values.
