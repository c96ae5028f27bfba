//! Verified core of a contact-modification hook pipeline for a rigid-body
//! physics engine: a handle codec for externally-stable entity identifiers,
//! fail-closed pair-filter dispatch, a mutable view over per-pair solver
//! contacts, and the one-way-platform reference filter built on that view.
pub mod geometry;
pub mod math;
pub mod oneway;
pub mod physics_hooks;
pub mod utils;
