//! The segment recorder: records the frames of the shared socket in chunks of
//! a fixed length, reports every completed chunk, and feeds the thumbnail
//! generator.

use crate::dtos::messages::{ChunkInfo, ChunkModel, whole_seconds};
use crate::recorder::common::PipelineError;
use crate::recorder::framehandler::{
    FrameError, FrameHandler, FrameHandlerImpl, FrameHandlerModel, SpriteBatch, SpriteBatchModel,
};
use crate::recorder::pipeline::{
    BusEvent, BusEventModel, Command, CommandModel, Failure, HandleModel, PipelineHandle,
    PipelineState, Property, Role, SegmentModel, Signal, Slot, Step, StepModel, VIDEO_SINK, Value,
    ValueModel, advance_from, build_script, build_steps, current_state_of, empty_script,
    halt_script, halt_steps, handle_model, moved_to, same_text, script_model, state_of,
};
use crate::recorder::session::{Session, SessionModel};
use crate::utils::text::{decimal, decimal_text};
use std::time::Duration;
use vstd::prelude::*;

verus! {

/// The name of the message by which the sink announces a completed segment.
pub const SEGMENT_ADDED: &'static str = "hls-segment-added";

/// Records in chunks.
pub trait Recorder: Sync + Send {
    /// The session that starts recording with the pipeline in `pipeline`.
    fn start(&mut self, pipeline: &mut Option<PipelineHandle>) -> Result<Session, PipelineError>;

    /// The session that stops recording.
    fn stop(&self, pipeline: &mut Option<PipelineHandle>) -> Result<Session, PipelineError>;

    /// The session that builds a pipeline from `cmd`.
    fn prepare_pipeline(&self, cmd: &str) -> Session;

    /// The descriptor of the recording pipeline.
    fn get_pipeline(&self) -> String;
}

/// What the task that drains the recorder's bus does after a message.
#[derive(Debug, PartialEq, Eq)]
pub enum BusAction {
    /// Read the next message.
    Continue,
    /// Hand the chunk to whoever asked for chunks, then read the next
    /// message.
    Notify(ChunkInfo),
    /// Write what the thumbnail generator flushed, if anything, and end.
    Quit(Result<Option<SpriteBatch>, FrameError>),
}

/// What a [`BusAction`] holds.
pub enum BusActionModel {
    Continue,
    Notify(ChunkModel),
    Quit(Result<Option<SpriteBatchModel>, FrameError>),
}

impl View for BusAction {
    type V = BusActionModel;

    open spec fn view(&self) -> BusActionModel {
        match *self {
            BusAction::Continue => BusActionModel::Continue,
            BusAction::Notify(chunk) => BusActionModel::Notify(chunk@),
            BusAction::Quit(flush) => BusActionModel::Quit(
                match flush {
                    Ok(Some(batch)) => Ok(Some(batch@)),
                    Ok(None) => Ok(None),
                    Err(error) => Err(error),
                },
            ),
        }
    }
}

/// The segment that a message announces, if it announces one: a message
/// named `hls-segment-added` of the video sink that carries the segment's
/// fields.
pub open spec fn announced_segment(event: BusEventModel) -> Option<SegmentModel> {
    match event {
        BusEventModel::Element { source, name, segment } => if source == VIDEO_SINK@ && name
            == SEGMENT_ADDED@ {
            segment
        } else {
            None
        },
        _ => None,
    }
}

/// The chunk that is reported for a segment: its location, the running time
/// in decimal, and its length in whole seconds.
pub open spec fn chunk_of(segment: SegmentModel) -> ChunkModel {
    ChunkModel {
        chunk: segment.location,
        timestamp: decimal_text(segment.running_time as nat),
        duration: whole_seconds(segment.duration),
    }
}

/// The chunks that are reported while a bus is drained, in the order in which
/// they are reported: one for every segment that is announced before the
/// first message that ends the stream, none after it.
pub open spec fn reported_chunks(events: Seq<BusEventModel>) -> Seq<ChunkModel>
    decreases events.len(),
{
    if events.len() == 0 {
        Seq::empty()
    } else {
        let before = events.drop_last();
        if stream_ended(before) {
            reported_chunks(before)
        } else {
            match announced_segment(events.last()) {
                Some(segment) => reported_chunks(before).push(chunk_of(segment)),
                None => reported_chunks(before),
            }
        }
    }
}

/// Whether one of the messages ends the stream.
pub open spec fn stream_ended(events: Seq<BusEventModel>) -> bool {
    exists|i: int| 0 <= i < events.len() && (#[trigger] events[i]).ends_stream()
}

/// The place, among the messages, of the segment behind the `k`-th reported
/// chunk.
pub open spec fn chunk_origin(events: Seq<BusEventModel>, k: int) -> int
    decreases events.len(),
{
    if events.len() == 0 {
        0
    } else {
        let before = events.drop_last();
        if k < reported_chunks(before).len() {
            chunk_origin(before, k)
        } else {
            events.len() - 1
        }
    }
}

/// Every reported chunk stands for one announced segment, no message that
/// ends the stream comes before that segment, and the chunks are reported in
/// the order of their segments: a chunk that is reported later belongs to a
/// segment that was announced later.
pub proof fn lemma_chunks_follow_segments(events: Seq<BusEventModel>, k: int)
    requires
        0 <= k < reported_chunks(events).len(),
    ensures
        0 <= chunk_origin(events, k) < events.len(),
        announced_segment(events[chunk_origin(events, k)]) == Some::<SegmentModel>(
            announced_segment(events[chunk_origin(events, k)])->0,
        ),
        reported_chunks(events)[k] == chunk_of(
            announced_segment(events[chunk_origin(events, k)])->0,
        ),
        !stream_ended(events.take(chunk_origin(events, k))),
        k > 0 ==> chunk_origin(events, k - 1) < chunk_origin(events, k),
    decreases events.len(),
{
    let before = events.drop_last();
    if k < reported_chunks(before).len() {
        lemma_chunks_follow_segments(before, k);
        let at = chunk_origin(before, k);
        assert(before.take(at) =~= events.take(at));
        assert(before[at] == events[at]);
    } else {
        assert(events.take(events.len() - 1) =~= before);
        if k > 0 {
            lemma_chunks_follow_segments(before, k - 1);
        }
    }
}

/// Every segment that is announced before the stream ends is reported: it is
/// the segment behind one of the reported chunks.
pub proof fn lemma_every_segment_is_reported(events: Seq<BusEventModel>, at: int) -> (k: int)
    requires
        0 <= at < events.len(),
        announced_segment(events[at]) is Some,
        !stream_ended(events.take(at)),
    ensures
        0 <= k < reported_chunks(events).len(),
        chunk_origin(events, k) == at,
    decreases events.len(),
{
    let before = events.drop_last();
    if at == events.len() - 1 {
        assert(events.take(at) =~= before);
        reported_chunks(before).len() as int
    } else {
        assert(before.take(at) =~= events.take(at));
        assert(before[at] == events[at]);
        lemma_every_segment_is_reported(before, at)
    }
}

/// While the stream has not ended, the chunks that are reported are exactly
/// those that the bus task of a recorder is told to hand out, if somebody
/// asked the recorder for chunks.
pub proof fn lemma_actions_report_chunks(
    recorder: VideoRecorderModel,
    events: Seq<BusEventModel>,
    event: BusEventModel,
)
    requires
        recorder.on_chunk,
        !stream_ended(events),
    ensures
        match recorder.action(event) {
            BusActionModel::Notify(chunk) => reported_chunks(events.push(event))
                == reported_chunks(events).push(chunk),
            _ => reported_chunks(events.push(event)) == reported_chunks(events),
        },
        recorder.after(event).on_chunk,
        recorder.action(event) is Quit <==> event.ends_stream(),
{
    assert(events.push(event).drop_last() =~= events);
}

/// Once a message has ended the stream nothing more is reported.
pub proof fn lemma_nothing_after_the_end(events: Seq<BusEventModel>, later: Seq<BusEventModel>)
    requires
        stream_ended(events),
    ensures
        reported_chunks(events + later) == reported_chunks(events),
    decreases later.len(),
{
    if later.len() == 0 {
        assert(events + later =~= events);
    } else {
        let all = events + later;
        assert(all.drop_last() =~= events + later.drop_last());
        lemma_nothing_after_the_end(events, later.drop_last());
        let i = choose|i: int| 0 <= i < events.len() && (#[trigger] events[i]).ends_stream();
        assert(all.drop_last()[i] == events[i]);
    }
}

/// What a [`VideoRecorder`] holds.
pub struct VideoRecorderModel {
    pub pipeline: Seq<char>,
    /// Whether somebody asked for completed chunks.
    pub on_chunk: bool,
    /// Target length of a chunk, in seconds.
    pub chunk_sec: u32,
    pub output_dir: Seq<char>,
    pub chunk_prefix: Seq<char>,
    pub socket_path: Seq<char>,
    /// The thumbnail generator.
    pub fh: FrameHandlerModel,
}

impl VideoRecorderModel {
    /// The pattern of the chunk files: the output directory, then the prefix,
    /// an underscore, the chunk's number in five digits, and the extension.
    pub open spec fn output_location(self) -> Seq<char> {
        self.output_dir + "/"@ + self.chunk_prefix + "_%05d.ts"@
    }

    /// The commands that start a recording: attach the source to the shared
    /// socket, give the sink the chunk pattern and the chunk length and have
    /// it forward its messages, hand the frames to the thumbnail generator,
    /// play, and watch the bus.
    pub open spec fn start_steps(self) -> Seq<StepModel> {
        seq![
            StepModel {
                role: Role::Recording,
                command: CommandModel::Configure {
                    slot: Slot::VideoSource,
                    property: Property::SocketPath,
                    value: ValueModel::Text(self.socket_path),
                },
                on_failure: Failure::Ignore,
            },
            StepModel {
                role: Role::Recording,
                command: CommandModel::Configure {
                    slot: Slot::VideoSink,
                    property: Property::Location,
                    value: ValueModel::Text(self.output_location()),
                },
                on_failure: Failure::Ignore,
            },
            StepModel {
                role: Role::Recording,
                command: CommandModel::Configure {
                    slot: Slot::VideoSink,
                    property: Property::TargetDuration,
                    value: ValueModel::Number(self.chunk_sec),
                },
                on_failure: Failure::Ignore,
            },
            StepModel {
                role: Role::Recording,
                command: CommandModel::Configure {
                    slot: Slot::VideoSink,
                    property: Property::MessageForward,
                    value: ValueModel::Flag(true),
                },
                on_failure: Failure::Ignore,
            },
            StepModel {
                role: Role::Recording,
                command: CommandModel::AttachFrameSink,
                on_failure: Failure::Unwind(PipelineError::EncodingError),
            },
            StepModel {
                role: Role::Recording,
                command: CommandModel::Play,
                on_failure: Failure::Unwind(PipelineError::EncodingError),
            },
            StepModel {
                role: Role::Recording,
                command: CommandModel::WatchBus,
                on_failure: Failure::Ignore,
            },
        ]
    }

    /// The commands that stop a recording: send the end of the stream, wait
    /// until the bus task has seen it and flushed the thumbnails, and only
    /// then tear down.
    pub open spec fn stop_steps() -> Seq<StepModel> {
        seq![
            StepModel {
                role: Role::Recording,
                command: CommandModel::SendEos,
                on_failure: Failure::Ignore,
            },
            StepModel {
                role: Role::Recording,
                command: CommandModel::AwaitEos,
                on_failure: Failure::Ignore,
            },
            StepModel {
                role: Role::Recording,
                command: CommandModel::Halt,
                on_failure: Failure::Ignore,
            },
        ]
    }

    /// Why a start is refused, if it is: `AlreadyStarted` where the pipeline
    /// is playing, `EncodingError` where there is no pipeline or it was
    /// started before.
    pub open spec fn start_error(pipeline: Option<HandleModel>) -> Option<PipelineError> {
        match state_of(pipeline) {
            Some(PipelineState::Playing) => Some(PipelineError::AlreadyStarted),
            Some(PipelineState::Idle) => None,
            _ => Some(PipelineError::EncodingError),
        }
    }

    /// Why a stop is refused, if it is: `NotRunning` unless the pipeline is
    /// playing.
    pub open spec fn stop_error(pipeline: Option<HandleModel>) -> Option<PipelineError> {
        if state_of(pipeline) == Some(PipelineState::Playing) {
            None
        } else {
            Some(PipelineError::NotRunning)
        }
    }

    /// The recorder at the start of a session: the thumbnail generator
    /// begins anew.
    pub open spec fn started(self) -> VideoRecorderModel {
        VideoRecorderModel { fh: self.fh.reset(), ..self }
    }

    /// What the bus task does after `event`: at the end of the stream it
    /// flushes the thumbnails and ends, after an error it ends, a segment
    /// is reported if somebody asked for chunks, and everything else is
    /// passed over.
    pub open spec fn action(self, event: BusEventModel) -> BusActionModel {
        match event {
            BusEventModel::Eos => BusActionModel::Quit(
                match self.fh.flush_error() {
                    Some(error) => Err(error),
                    None => Ok(self.fh.flush_batch()),
                },
            ),
            BusEventModel::Error => BusActionModel::Quit(Ok(None)),
            _ => match announced_segment(event) {
                Some(segment) => if self.on_chunk {
                    BusActionModel::Notify(chunk_of(segment))
                } else {
                    BusActionModel::Continue
                },
                None => BusActionModel::Continue,
            },
        }
    }

    /// The recorder after `event`: only the end of the stream changes it, by
    /// flushing the thumbnails.
    pub open spec fn after(self, event: BusEventModel) -> VideoRecorderModel {
        match event {
            BusEventModel::Eos => VideoRecorderModel { fh: self.fh.after_flush(), ..self },
            _ => self,
        }
    }
}

/// The recorder of one device.
#[derive(Debug)]
pub struct VideoRecorder {
    pipeline: String,
    on_chunk: bool,
    chunk_sec: u32,
    output_dir: String,
    chunk_prefix: String,
    socket_path: String,
    fh: FrameHandlerImpl,
}

impl View for VideoRecorder {
    type V = VideoRecorderModel;

    closed spec fn view(&self) -> VideoRecorderModel {
        VideoRecorderModel {
            pipeline: self.pipeline@,
            on_chunk: self.on_chunk,
            chunk_sec: self.chunk_sec,
            output_dir: self.output_dir@,
            chunk_prefix: self.chunk_prefix@,
            socket_path: self.socket_path@,
            fh: self.fh@,
        }
    }
}

impl VideoRecorder {
    /// The pattern of the chunk files.
    pub fn output_location(&self) -> (location: String)
        ensures
            location@ == self@.output_location(),
    {
        let mut location = self.output_dir.clone();
        location.append("/");
        location.append(self.chunk_prefix.as_str());
        location.append("_%05d.ts");
        location
    }

    /// The prefix of the chunk files.
    pub fn chunk_prefix(&self) -> (prefix: String)
        ensures
            prefix@ == self@.chunk_prefix,
    {
        self.chunk_prefix.clone()
    }

    /// The commands that start a recording.
    pub fn start_steps(&self) -> (steps: Vec<Step>)
        ensures
            script_model(steps@) == self@.start_steps(),
    {
        let mut steps: Vec<Step> = Vec::new();
        steps.push(
            Step::configure_text(
                Role::Recording,
                Slot::VideoSource,
                Property::SocketPath,
                self.socket_path.clone(),
            ),
        );
        steps.push(
            Step::configure_text(
                Role::Recording,
                Slot::VideoSink,
                Property::Location,
                self.output_location(),
            ),
        );
        steps.push(
            Step::lenient(
                Role::Recording,
                Command::Configure {
                    slot: Slot::VideoSink,
                    property: Property::TargetDuration,
                    value: Value::Number(self.chunk_sec),
                },
            ),
        );
        steps.push(
            Step::lenient(
                Role::Recording,
                Command::Configure {
                    slot: Slot::VideoSink,
                    property: Property::MessageForward,
                    value: Value::Flag(true),
                },
            ),
        );
        steps.push(
            Step::new(
                Role::Recording,
                Command::AttachFrameSink,
                Failure::Unwind(PipelineError::EncodingError),
            ),
        );
        steps.push(
            Step::new(
                Role::Recording,
                Command::Play,
                Failure::Unwind(PipelineError::EncodingError),
            ),
        );
        steps.push(Step::lenient(Role::Recording, Command::WatchBus));
        assert(script_model(steps@) =~= self@.start_steps());
        steps
    }

    /// The commands that stop a recording.
    pub fn stop_steps() -> (steps: Vec<Step>)
        ensures
            script_model(steps@) == VideoRecorderModel::stop_steps(),
    {
        let mut steps: Vec<Step> = Vec::new();
        steps.push(Step::lenient(Role::Recording, Command::SendEos));
        steps.push(Step::lenient(Role::Recording, Command::AwaitEos));
        steps.push(Step::lenient(Role::Recording, Command::Halt));
        assert(script_model(steps@) =~= VideoRecorderModel::stop_steps());
        steps
    }

    /// Begins a recording session: the thumbnail generator begins anew.
    pub(crate) fn begin(&mut self)
        ensures
            final(self)@ == old(self)@.started(),
    {
        self.fh.reset();
    }

    /// Takes one decoded frame of the recording, and with `collect` a request
    /// to flush the thumbnails that came before it.
    pub fn handle_frame(&mut self, frame: Vec<u8>, collect: bool) -> (result: Result<
        Option<SpriteBatch>,
        FrameError,
    >)
        ensures
            final(self)@ == (VideoRecorderModel {
                fh: old(self)@.fh.after_frame(frame@, collect),
                ..old(self)@
            }),
            match result {
                Ok(Some(batch)) => old(self)@.fh.frame_error(frame@, collect) is None && old(
                    self,
                )@.fh.frame_batch(frame@, collect) == Some(batch@),
                Ok(None) => old(self)@.fh.frame_error(frame@, collect) is None && old(
                    self,
                )@.fh.frame_batch(frame@, collect) is None,
                Err(error) => old(self)@.fh.frame_error(frame@, collect) == Some(error),
            },
    {
        self.fh.handle_frame(frame, collect)
    }

    /// Decides what the task that drains the recorder's bus does after
    /// `event`.
    pub fn message_loop(&mut self, event: BusEvent) -> (action: BusAction)
        ensures
            action@ == old(self)@.action(event@),
            final(self)@ == old(self)@.after(event@),
    {
        match event {
            BusEvent::Eos => BusAction::Quit(self.fh.collect_frames()),
            BusEvent::Error => BusAction::Quit(Ok(None)),
            BusEvent::Element { source, name, segment } => {
                if !self.on_chunk || !same_text(source.as_str(), VIDEO_SINK) || !same_text(
                    name.as_str(),
                    SEGMENT_ADDED,
                ) {
                    return BusAction::Continue;
                }
                match segment {
                    Some(fields) => BusAction::Notify(
                        ChunkInfo::new(
                            fields.location,
                            decimal(fields.running_time),
                            Duration::from_secs(fields.duration),
                        ),
                    ),
                    None => BusAction::Continue,
                }
            },
            BusEvent::Other => BusAction::Continue,
        }
    }
}

impl Recorder for VideoRecorder {
    /// Refuses, and changes nothing, where the pipeline is playing, where
    /// there is none, and where it was started before. Otherwise the
    /// thumbnail generator begins anew, the pipeline is prepared, and the
    /// session of the start is returned; a start that fails tears the
    /// pipeline down.
    fn start(&mut self, pipeline: &mut Option<PipelineHandle>) -> (result: Result<
        Session,
        PipelineError,
    >)
        ensures
            match result {
                Ok(session) => {
                    &&& VideoRecorderModel::start_error(handle_model(*old(pipeline))) is None
                    &&& session@ == SessionModel::fresh(
                        old(self)@.start_steps(),
                        halt_steps(Role::Recording),
                    )
                    &&& handle_model(*final(pipeline)) == moved_to(
                        handle_model(*old(pipeline)),
                        PipelineState::Prepared,
                    )
                    &&& final(self)@ == old(self)@.started()
                },
                Err(error) => {
                    &&& VideoRecorderModel::start_error(handle_model(*old(pipeline))) == Some(
                        error,
                    )
                    &&& handle_model(*final(pipeline)) == handle_model(*old(pipeline))
                    &&& final(self)@ == old(self)@
                },
            },
    {
        match current_state_of(pipeline) {
            Some(PipelineState::Playing) => {
                return Err(PipelineError::AlreadyStarted);
            },
            Some(PipelineState::Idle) => {},
            _ => {
                return Err(PipelineError::EncodingError);
            },
        }
        advance_from(pipeline, PipelineState::Idle, Signal::Configured);
        self.begin();
        Ok(Session::new(self.start_steps(), halt_script(Role::Recording)))
    }

    /// Refuses with `NotRunning`, and changes nothing, unless the pipeline
    /// is playing. Otherwise the pipeline counts as stopped from now on and
    /// the session of the stop is returned.
    fn stop(&self, pipeline: &mut Option<PipelineHandle>) -> (result: Result<
        Session,
        PipelineError,
    >)
        ensures
            match result {
                Ok(session) => {
                    &&& VideoRecorderModel::stop_error(handle_model(*old(pipeline))) is None
                    &&& session@ == SessionModel::fresh(
                        VideoRecorderModel::stop_steps(),
                        Seq::empty(),
                    )
                    &&& handle_model(*final(pipeline)) == moved_to(
                        handle_model(*old(pipeline)),
                        PipelineState::Stopped,
                    )
                },
                Err(error) => {
                    &&& VideoRecorderModel::stop_error(handle_model(*old(pipeline))) == Some(error)
                    &&& handle_model(*final(pipeline)) == handle_model(*old(pipeline))
                },
            },
    {
        if !advance_from(pipeline, PipelineState::Playing, Signal::Stopped) {
            return Err(PipelineError::NotRunning);
        }
        Ok(Session::new(Self::stop_steps(), empty_script()))
    }

    fn prepare_pipeline(&self, cmd: &str) -> (session: Session)
        ensures
            session@ == SessionModel::fresh(
                build_steps(Role::Recording, cmd@, Failure::Abort(PipelineError::ParseError)),
                Seq::empty(),
            ),
    {
        Session::new(
            build_script(Role::Recording, cmd, Failure::Abort(PipelineError::ParseError)),
            empty_script(),
        )
    }

    fn get_pipeline(&self) -> (descriptor: String)
        ensures
            descriptor@ == self@.pipeline,
    {
        self.pipeline.clone()
    }
}

/// What a [`VideoRecorderBuilder`] holds.
pub struct VideoRecorderBuilderModel {
    pub pipeline: Seq<char>,
    pub chunk_sec: u32,
    pub on_chunk: bool,
    pub output_dir: Seq<char>,
    pub chunk_prefix: Seq<char>,
    pub socket_path: Seq<char>,
}

/// The settings of a recorder that nobody has configured: no pipeline,
/// chunks of six seconds named `chunk_…` in the working directory, frames
/// read from `/tmp/video.sock`, and nobody asking for chunks.
pub open spec fn default_video_recorder() -> VideoRecorderBuilderModel {
    VideoRecorderBuilderModel {
        pipeline: Seq::empty(),
        chunk_sec: 6,
        on_chunk: false,
        output_dir: "."@,
        chunk_prefix: "chunk"@,
        socket_path: "/tmp/video.sock"@,
    }
}

/// Collects the settings of a [`VideoRecorder`].
pub struct VideoRecorderBuilder {
    pipeline: String,
    chunk_sec: u32,
    on_chunk: bool,
    output_dir: String,
    chunk_prefix: String,
    socket_path: String,
}

impl View for VideoRecorderBuilder {
    type V = VideoRecorderBuilderModel;

    closed spec fn view(&self) -> VideoRecorderBuilderModel {
        VideoRecorderBuilderModel {
            pipeline: self.pipeline@,
            chunk_sec: self.chunk_sec,
            on_chunk: self.on_chunk,
            output_dir: self.output_dir@,
            chunk_prefix: self.chunk_prefix@,
            socket_path: self.socket_path@,
        }
    }
}

impl VideoRecorderBuilder {
    pub fn new() -> (builder: VideoRecorderBuilder)
        ensures
            builder@ == default_video_recorder(),
    {
        VideoRecorderBuilder {
            pipeline: String::new(),
            chunk_sec: 6,
            on_chunk: false,
            output_dir: String::from_str("."),
            chunk_prefix: String::from_str("chunk"),
            socket_path: String::from_str("/tmp/video.sock"),
        }
    }

    pub fn with_pipeline(self, s: String) -> (builder: VideoRecorderBuilder)
        ensures
            builder@ == (VideoRecorderBuilderModel { pipeline: s@, ..self@ }),
    {
        let mut builder = self;
        builder.pipeline = s;
        builder
    }

    pub fn with_chunks_sec(self, s: u32) -> (builder: VideoRecorderBuilder)
        ensures
            builder@ == (VideoRecorderBuilderModel { chunk_sec: s, ..self@ }),
    {
        let mut builder = self;
        builder.chunk_sec = s;
        builder
    }

    pub fn with_output_dir(self, s: String) -> (builder: VideoRecorderBuilder)
        ensures
            builder@ == (VideoRecorderBuilderModel { output_dir: s@, ..self@ }),
    {
        let mut builder = self;
        builder.output_dir = s;
        builder
    }

    pub fn with_chunk_prefix(self, s: String) -> (builder: VideoRecorderBuilder)
        ensures
            builder@ == (VideoRecorderBuilderModel { chunk_prefix: s@, ..self@ }),
    {
        let mut builder = self;
        builder.chunk_prefix = s;
        builder
    }

    /// Asks for completed chunks: the bus task will hand every one of them
    /// out.
    pub fn with_on_chunk(self) -> (builder: VideoRecorderBuilder)
        ensures
            builder@ == (VideoRecorderBuilderModel { on_chunk: true, ..self@ }),
    {
        let mut builder = self;
        builder.on_chunk = true;
        builder
    }

    pub fn with_socket_path(self, s: String) -> (builder: VideoRecorderBuilder)
        ensures
            builder@ == (VideoRecorderBuilderModel { socket_path: s@, ..self@ }),
    {
        let mut builder = self;
        builder.socket_path = s;
        builder
    }

    /// A recorder with these settings, whose thumbnail generator writes into
    /// the output directory and has seen no frame.
    pub fn build(self) -> (recorder: VideoRecorder)
        ensures
            recorder@ == (VideoRecorderModel {
                pipeline: self@.pipeline,
                on_chunk: self@.on_chunk,
                chunk_sec: self@.chunk_sec,
                output_dir: self@.output_dir,
                chunk_prefix: self@.chunk_prefix,
                socket_path: self@.socket_path,
                fh: FrameHandlerModel {
                    frames: Seq::empty(),
                    idx: 0,
                    output_path: self@.output_dir,
                },
            }),
    {
        let fh = FrameHandlerImpl::new(self.output_dir.clone());
        VideoRecorder {
            pipeline: self.pipeline,
            on_chunk: self.on_chunk,
            chunk_sec: self.chunk_sec,
            output_dir: self.output_dir,
            chunk_prefix: self.chunk_prefix,
            socket_path: self.socket_path,
            fh,
        }
    }
}

} // verus!
