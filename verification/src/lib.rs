//! Verified core of a small Vulkan renderer: key bindings, frame-time ring
//! buffer, render and device configuration, render-pass attachment plans and
//! the per-frame swapchain decisions.

pub mod input;
pub mod sysinfo;
pub mod render_config;
pub mod vulkan_config;
pub mod render_pass;
pub mod frame;
