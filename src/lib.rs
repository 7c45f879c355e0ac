//! Safe, ownership-aware handles over a multimedia engine's codec parameter
//! descriptors and filter graphs.

pub mod codec;
pub mod error;
pub mod filter;
pub mod media;

pub use error::Error;
