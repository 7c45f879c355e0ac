//! Codec parameter descriptors.

pub mod parameters;

pub use parameters::{Audio, Block, Owner, Parameters, Video};
