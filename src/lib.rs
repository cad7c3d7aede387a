//! Clone policies for components and the back-reference-preserving
//! duplication of relationship components.

pub mod clone_behavior;
pub mod clone_ctx;
pub mod entity;
pub mod laws;
pub mod registry;
pub mod relationship;
pub mod world;
