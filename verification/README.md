# vkrender

The verified core of a small Vulkan renderer with an imgui settings window.
The library (`src/`) holds the decisions; `app/` is the program around it
(window, Vulkan, imgui and floating-point camera maths).

- `input`: packed key and mouse-button bitsets (`Bindings`), their text form,
  the key and mouse-button events and the camera movement keys.
- `sysinfo`: the fixed-size ring buffer of frame times and the memory unit
  conversion.
- `render_config`: present mode fallback, frame-rate mode and the resolution
  modes and presets.
- `vulkan_config`: the device list, the user's device switch and the choice of
  the physical device.
- `render_pass`: which attachments are colour or depth, their image layouts,
  load operations and clear values.
- `frame`: what each frame does after each swapchain step.
