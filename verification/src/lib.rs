//! A model of a resizable presentation surface manager.
//!
//! The crate decides; its caller talks to the graphics driver and the
//! windowing system. Every function here takes and returns plain values, so
//! that the same decisions can be driven by a real driver or by a scripted one.

pub mod error;
pub mod prepare;
pub mod renderer;
pub mod renderer_core;
pub mod vulkan_api_connection;
pub mod winit_app;
