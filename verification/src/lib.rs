//! Extracts a representative cover image from a zip-style archive: a verified
//! cover-selection heuristic over the archive's entry names, followed by a
//! verified decode/resize pipeline built on the `image` crate.

pub mod errors;
pub mod imaging;
pub mod locator;
pub mod pipeline;
