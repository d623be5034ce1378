//! GPU image upscaling: the decisions of the compute pipeline.
//!
//! The crate holds everything the upscaler decides: which inputs are
//! accepted, how large the buffers are, which device queue and which memory
//! type are chosen, in which order GPU objects are created, and in which
//! order they are released again. The GPU calls themselves are made by the
//! embedding application, which performs one [`pipeline::Action`] at a time
//! and reports back what happened.

pub mod geometry;
pub mod flags;
pub mod memory;
pub mod device;
pub mod resources;
pub mod steps;
pub mod error;
pub mod pixels;
pub mod pipeline;
pub mod request;
