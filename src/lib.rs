//! Face detection and face embedding pipelines over pre-trained graphs.
//!
//! Floating-point values produced by a graph are carried as their IEEE-754
//! single-precision bit patterns (`u32`); the library orders and groups them
//! without doing float arithmetic.
pub mod error;
pub mod layout;
pub mod detection;
pub mod raster;
pub mod registry;
pub mod pipeline;
