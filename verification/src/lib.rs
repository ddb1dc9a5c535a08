//! Resource lifecycle and pass orchestration for a real-time GPU renderer.
//!
//! The library describes every device resource as a plain value with an
//! identity, decides what has to be created, replaced or kept on each event,
//! and records the work of a frame. A backend turns these descriptions into
//! device objects and feeds back what only the device can tell.

pub mod dispatch;
pub mod ecs;
pub mod events;
pub mod fps;
pub mod frame;
pub mod input;
pub mod menu;
pub mod object;
pub mod render;
pub mod renderer;
pub mod schedule;
pub mod time;
pub mod util;
