//! The capture controller and the services it composes.

pub mod common;
pub mod framehandler;
pub mod pipeline;
pub mod preview;
pub mod session;
pub mod stillrecorder;
pub mod videocontroller;
pub mod videorecorder;
pub mod videosource;
