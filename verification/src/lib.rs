//! Decision core of a GPU rendering context: capability negotiation, physical
//! device selection, shader identity and bookkeeping, frame synchronisation and
//! the order in which everything is released again.
//!
//! Nothing in this crate talks to a driver, a window or a file. Every function
//! takes plain values that describe what the driver reported and answers with
//! plain values that say what to do next; the contracts state those answers
//! exactly.

pub mod builder;
pub mod capability;
pub mod common;
pub mod context;
pub mod debug_messenger;
pub mod device;
pub mod error;
pub mod instance;
pub mod logging;
pub mod renderer;
pub mod resource_manager;
pub mod shader;
pub mod surface;
pub mod sync;
pub mod text;
pub mod vulkan;
