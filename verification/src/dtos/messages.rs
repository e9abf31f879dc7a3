//! Messages handed to callers: completed chunks, negotiated stream
//! properties, and the results of recording and still capture.

use std::time::Duration;
use vstd::prelude::*;

verus! {

/// The `strftime` pattern used to name stills by the moment they were taken.
pub const TIMESTAMP_FORMAT: &'static str = "%Y%m%d-%H%M%S";

/// The span of `secs` whole seconds.
pub uninterp spec fn whole_seconds(secs: u64) -> Duration;

/// `Duration::from_secs` yields the span of that many whole seconds.
pub assume_specification[ Duration::from_secs ](secs: u64) -> (span: Duration)
    ensures
        span == whole_seconds(secs),
;

/// One completed recording segment.
#[derive(Debug, PartialEq, Eq)]
pub struct ChunkInfo {
    /// Where the segment was written.
    pub chunk: String,
    /// The running time at which the segment was completed.
    pub timestamp: String,
    /// How long the segment lasts.
    pub duration: Duration,
}

/// What a [`ChunkInfo`] holds.
pub struct ChunkModel {
    pub chunk: Seq<char>,
    pub timestamp: Seq<char>,
    pub duration: Duration,
}

impl View for ChunkInfo {
    type V = ChunkModel;

    open spec fn view(&self) -> ChunkModel {
        ChunkModel { chunk: self.chunk@, timestamp: self.timestamp@, duration: self.duration }
    }
}

impl ChunkInfo {
    pub fn new(chunk: String, timestamp: String, duration: Duration) -> (info: ChunkInfo)
        ensures
            info.chunk == chunk,
            info.timestamp == timestamp,
            info.duration == duration,
    {
        ChunkInfo { chunk, timestamp, duration }
    }
}

impl Default for ChunkInfo {
    fn default() -> (info: ChunkInfo)
        ensures
            info.chunk@ == Seq::<char>::empty(),
            info.timestamp@ == Seq::<char>::empty(),
            info.duration == whole_seconds(0),
    {
        ChunkInfo { chunk: String::new(), timestamp: String::new(), duration: Duration::from_secs(0) }
    }
}

/// The stream properties negotiated when a source starts.
#[derive(Clone, Debug, PartialEq, Eq)]
pub struct VideoSourceInfo {
    pub device: String,
    pub width: u32,
    pub height: u32,
    pub format: String,
}

impl Default for VideoSourceInfo {
    fn default() -> (info: VideoSourceInfo)
        ensures
            info.device@ == Seq::<char>::empty(),
            info.width == 0,
            info.height == 0,
            info.format@ == Seq::<char>::empty(),
    {
        VideoSourceInfo { device: String::new(), width: 0, height: 0, format: String::new() }
    }
}

/// What a recording session reports while it runs.
#[derive(Clone, Copy, Debug, PartialEq, Eq, Structural)]
pub enum RecordingState {
    ChunkCreated,
    EOS,
}

/// The result of starting a recording.
#[derive(Clone, Debug, PartialEq, Eq)]
pub struct RecordingInfo {
    pub prefix: String,
}

impl Default for RecordingInfo {
    fn default() -> (info: RecordingInfo)
        ensures
            info.prefix@ == Seq::<char>::empty(),
    {
        RecordingInfo { prefix: String::new() }
    }
}

/// The result of a one-shot still capture. Width, height and format stay
/// zero and empty unless they were queried.
#[derive(Clone, Debug, PartialEq, Eq)]
pub struct StillInfo {
    pub device: String,
    pub width: u32,
    pub height: u32,
    pub format: String,
    pub still_file: String,
}

impl Default for StillInfo {
    fn default() -> (info: StillInfo)
        ensures
            info.device@ == Seq::<char>::empty(),
            info.width == 0,
            info.height == 0,
            info.format@ == Seq::<char>::empty(),
            info.still_file@ == Seq::<char>::empty(),
    {
        StillInfo {
            device: String::new(),
            width: 0,
            height: 0,
            format: String::new(),
            still_file: String::new(),
        }
    }
}

} // verus!
