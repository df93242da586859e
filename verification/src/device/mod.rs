//! The devices this crate knows how to be: their reports, report descriptors and
//! interfaces.

pub mod consumer;
pub mod keyboard;
pub mod mouse;
