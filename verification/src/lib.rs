//! Verified core of a deployment-status badge service.
//!
//! The service answers a badge request by querying an upstream deployment
//! API and rendering the latest deployment status as a small vector image.
//! Everything that decides or computes lives here with a proved contract:
//! classifying the upstream outcome into a status string, mapping the status
//! to a color, deriving the badge geometry from the status text, rendering
//! the image markup (with all dynamic text escaped), and validating the
//! process configuration. The surrounding process performs the network calls
//! and hands this crate plain values.

pub mod config;
pub mod render;
pub mod text;
pub mod upstream;
