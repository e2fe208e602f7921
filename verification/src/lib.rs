//! Resource and synchronisation core of a small Vulkan rendering engine.
//!
//! The library decides; its caller talks to the driver. Every function here
//! works on plain values (raw handles, counts, flags) and returns either a
//! description of what to create, a list of what to destroy and in which
//! order, or the next action of the frame loop.
pub mod engine;
pub mod renderer;
