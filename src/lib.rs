//! Verified core of a binding layer for a native compute runtime: the status
//! taxonomy, the status value model, the allocator control protocol and the
//! borrowed views handed across the native boundary.

pub mod status;
pub mod allocator;
pub mod view;
pub mod error;
