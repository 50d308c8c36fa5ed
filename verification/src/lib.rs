//! Loading TensorFlow Lite models, with the decisions that the loader makes
//! stated and proved.
//!
//! The TensorFlow Lite C library itself is reached through a loader function
//! that the caller hands in; this crate builds the arguments it receives and
//! decides, from the handle it returns, whether a [`model::Model`] was
//! loaded.

pub mod error;
pub mod model;

pub use error::{Error, ErrorKind};
