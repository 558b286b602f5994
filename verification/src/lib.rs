//! An interactive client for turning an uploaded raster image into a
//! procedurally generated tiling pattern rendered as a vector document.
//!
//! The crate holds the verified core: the application state machine (`state`),
//! the decoded-image adapter the pattern generator samples through
//! (`image_data`), the fixed output-document assembly and the preview
//! embedding (`document`), and the laws that hold across those pieces
//! (`laws`). Calls into the raster decoder and the base64 encoder stand
//! behind the trusted boundary in `codec`.
pub mod codec;
pub mod document;
pub mod image_data;
pub mod laws;
pub mod state;
