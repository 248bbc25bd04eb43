//! A verified model of a graphics bootstrap sequence.
//!
//! The library captures the decision logic of bringing up a rendering
//! context against a graphics API: which physical device to use, which
//! queue family, which swapchain parameters, and which typed error to
//! report when a step cannot succeed. The graphics API itself is
//! observed through a plain-data [`bootstrap::Environment`] description,
//! so every selection rule and the full call ordering are verified;
//! the actual driver calls live with the unverified front end that
//! fills that description in.

pub mod bootstrap;
pub mod device;
pub mod pipeline;
pub mod swapchain;
pub mod world;

pub use device::{QueueFamilyInfo, DeviceInfo};
pub use world::World;
