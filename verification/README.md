# red

Helpers for drawing a mesh with a GLSL material on a `wgpu` device, verified
with Verus.

- `src/render/shader.rs`: shaders and materials, the lazily built shader
  modules behind them (`create_module`, `get_stage`), and the uniform bind
  group layout of a material.
- `src/render/spirv.rs`: what a SPIR-V binary decodes to, the call of
  `wgpu::read_spirv`, and the proof that the encodings a compiler emits decode
  back to the compiled words.
- `src/render/gpu.rs`: plain-value descriptions of the `wgpu` state the
  renderer configures.
- `src/render/mod.rs`: the setup of a rendering context, the mesh pipeline
  state, and `MeshRenderer` (pipeline building and draw commands).
- `app/lib.rs`: the device side: the `wgpu` context of a `winit` window,
  compiling with `shaderc`, creating modules, pipelines and layouts, and
  recording draw commands into a render pass.

Compiling and creating GPU objects are handed to the library as closures. The
contracts say when each closure may be called (a shader whose module is built
asks nothing of them) and what is made of what they return; the device work
itself stays outside.
