//! The settings of one recording installation.

use vstd::prelude::*;

verus! {

/// Pipeline descriptors and output layout, as read from the settings file.
#[derive(Clone, Debug, PartialEq, Eq)]
pub struct RecordingConfig {
    pub source_pipeline: String,
    pub recording_pipeline: String,
    pub preview_pipeline: String,
    pub still_pipeline: String,
    /// Target length of one recording segment, in seconds.
    pub chunk_size: u32,
    pub output_dir: String,
    pub chunk_prefix: String,
}

impl Default for RecordingConfig {
    fn default() -> (config: RecordingConfig)
        ensures
            config.source_pipeline@ == Seq::<char>::empty(),
            config.recording_pipeline@ == Seq::<char>::empty(),
            config.preview_pipeline@ == Seq::<char>::empty(),
            config.still_pipeline@ == Seq::<char>::empty(),
            config.chunk_size == 0,
            config.output_dir@ == Seq::<char>::empty(),
            config.chunk_prefix@ == Seq::<char>::empty(),
    {
        RecordingConfig {
            source_pipeline: String::new(),
            recording_pipeline: String::new(),
            preview_pipeline: String::new(),
            still_pipeline: String::new(),
            chunk_size: 0,
            output_dir: String::new(),
            chunk_prefix: String::new(),
        }
    }
}

/// The entry point for settings.
#[derive(Clone, Copy, Debug, PartialEq, Eq, Structural)]
pub struct Config {}

impl Config {
    pub fn new() -> (config: Config)
        ensures
            config == (Config {}),
    {
        Config {}
    }
}

} // verus!
