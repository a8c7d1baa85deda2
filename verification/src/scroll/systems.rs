//! The stages of a frame, each over one container.

pub mod bind;
pub mod constrain;
pub mod extract;
pub mod interact;
