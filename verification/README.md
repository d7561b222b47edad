# neuralforge

The decisions of a Vulkan implicit layer that hands a game's frames to a neural rendering
helper and puts its answers on the screen, and of the settings window beside it.

- `src/` is the library. It is verified with Verus: what the layer does at each present, how it
  captures without waiting, which driver objects it holds and frees, which swapchain may use
  the channel, and what the window shows. Only the contracts of six small wrappers around
  `ash` are believed rather than proved, all in `src/vulkan.rs`: `usage_union`,
  `usage_contains`, `swapchain_flags_intersect`, `memory_flags_contain`,
  `sample_counts_contain` and `vk_result`.
- `app/` is the ordinary Rust around it: the driver, the loader, the shared channel, the file
  system and the desktop.
- `tests/` runs the library, with a simulated device and helper where one is needed.

Work that the library can not do itself is a step: the library says what to do, `app/` does it
and hands back the outcome. `pipeline`, `capture` and `synchronous` are such state machines for
one present, `capture_buffer`, `loader_data` and `device_creation` for the objects behind it.
What the machines promise together stands beside them as public proof functions; what a run of
presents promises stands in `presents`.
