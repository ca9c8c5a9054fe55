//! The platform layer of a small game engine: the window's events and the
//! Vulkan renderer's lifecycle, from device and swapchain negotiation to the
//! frame cycle and teardown.
pub mod context;
pub mod error;
pub mod frame;
pub mod keycodes;
pub mod log;
pub mod renderer;
pub mod surface;
pub mod window;
