//! Core of a small real-time rendering engine: device and queue-family
//! selection, swapchain planning, pipeline-layout derivation, per-frame
//! command recording, and the double-buffered frame pacing protocol.
//!
//! Every decision the engine makes is stated and proved here over plain
//! values. The native graphics calls that carry those decisions out live in
//! an unverified shell that consumes the plans this crate produces.

pub mod builder;
pub mod command_buffer;
pub mod debugging;
pub mod device_selection;
pub mod errors;
pub mod instance;
pub mod logical_device;
pub mod physical_device;
pub mod pipeline;
pub mod render_pass;
pub mod render_state;
pub mod renderer;
pub mod shader_words;
pub mod swapchain;
pub mod synchronization;
pub mod vulkan_names;
pub mod window;
