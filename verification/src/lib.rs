//! Verified decision logic of a relativistic ray tracer's Vulkan front end:
//! how the swapchain is configured from what the surface supports, how frames
//! in flight are cycled, and how the window event loop reacts to events.

pub mod events;
pub mod frames;
pub mod swapchain;
pub mod vk_values;
