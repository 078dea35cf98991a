//! The devices that a local model can be placed on.

pub mod cuda;
pub mod gpu;
