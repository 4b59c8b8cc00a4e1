# relsim

A relativistic ray tracer with a Vulkan front end.

- `src/` is the verified library: the swapchain configuration chosen from what
  a surface supports (`swapchain`), the cycle of frames in flight (`frames`),
  the answer of the window event loop to each event (`events`), and the raw
  Vulkan values these compare against, read from `ash` (`vk_values`).
- `app/` is the program: the geodesic integrator and colour model, which work
  in floating point, and the Vulkan and window plumbing. The plumbing asks the
  library how to configure the swapchain, which frame slot to use and how to
  answer window events; choosing the device, its queue families and the
  graphics pipeline is done in `app/` itself.
- `tests/` exercises the library on concrete inputs.
