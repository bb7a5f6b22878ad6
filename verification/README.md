# d3engine

The verified core of the D3 Vulkan renderer.

- `src/` (Verus): the particle random stream (`rng`), the smoke spawn budget
  and the weather scatter draws, the river mesh topology, backface-cull and
  vertex-input descriptions, GPU buffer growth, queue-family search,
  swapchain sizing, and the frame's decisions: draw planning, the shadow
  caster, the capped GPU arrays, pass selection and the main pass's layering
  order, the fire upload, and the acquire/present reactions with the resize flag they
  leave. Each has its
  contract, and the laws that relate them are proved.
- `app/` (plain Rust): Vulkan, VMA and window plumbing, and the floating-point
  particle and mesh code. It calls the library for the particle, mesh,
  culling, vertex-input, buffer, queue-family and swapchain decisions. The
  renderers that would call the frame decisions (draw planning, shadow caster,
  array caps, passes and their order, fire upload, acquire/present) depend on
  camera, light, sky, cloud, fire and post-processing modules that are not
  part of this source, so they are not in `app/`; those decisions are
  exercised by the tests.
- `tests/`: concrete cases for every public function and law.
