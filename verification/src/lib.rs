//! The decision logic of a small Vulkan engine: which queue families and
//! which physical device to use, which queues to create, which layers and
//! extensions an instance needs, and how the main loop reacts to window events.
//! Everything that talks to the driver or to SDL stays with the caller, which
//! hands the answers in here as plain values.

pub mod vk_engine;
pub mod vulkan;
