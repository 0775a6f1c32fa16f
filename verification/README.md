# vk_engine

The decisions of a small Vulkan engine built on `ash` and SDL2, verified with Verus.

- `src/` is the verified library: choosing queue families and a physical device,
  the queues a logical device is created with, the layers, extensions and versions
  of the instance, and how the main loop reacts to window events. Driver and window
  queries are answered by the caller and handed in as plain values.
- `src/vulkan/ash_bindings.rs` holds the few trusted calls into `ash`.
- `app/` is the program: it loads Vulkan, opens the SDL window, queries the driver,
  and runs the main loop with the library's decisions.
- `tests/` runs the library on concrete inputs.
