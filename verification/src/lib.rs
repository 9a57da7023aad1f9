//! Command encoding for a command-list based GPU driver model.
//!
//! The encoder turns a stream of backend-agnostic drawing, compute, copy and
//! query calls into the ordered native commands and resource barriers that
//! the driver needs. Native objects are known here only by their handles: the
//! commands are recorded as values, and whoever owns the real objects replays
//! them.

pub mod barrier;
pub mod encoder;
pub mod native;
pub mod pass;
pub mod render;
pub mod resource;
pub mod root;
pub mod temp;
pub mod transfer;
pub mod usage;
