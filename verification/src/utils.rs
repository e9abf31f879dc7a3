//! Settings of a recording installation, and text building.

pub mod config;
pub mod text;
