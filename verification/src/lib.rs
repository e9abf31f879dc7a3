//! Coordination logic of a capture-and-distribution controller: one video
//! device is captured once and fanned out to chunked recording, still capture
//! and a live preview.

pub mod dtos;
pub mod recorder;
pub mod utils;
