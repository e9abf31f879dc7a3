//! The video source: the one owner of the capture device. It publishes the
//! device's frames on a socket that every other pipeline reads from.

use crate::dtos::messages::VideoSourceInfo;
use crate::recorder::common::PipelineError;
use crate::recorder::pipeline::{
    BusEvent, CapsModel, Command, CommandModel, Failure, PipelineHandle, PipelineState, Property,
    Role, Signal, Slot, Step, StepModel, StreamCaps, ValueModel, same_text, script_model,
};
use crate::recorder::session::{Session, SessionModel};
use vstd::prelude::*;

verus! {

/// What the names of capture devices begin with.
pub const DEVICE_PREFIX: &'static str = "video";

/// How often a start looks whether the pipeline runs and whether its
/// capabilities are negotiated, in milliseconds.
pub const POLL_MS: u64 = 100;

/// The directory that holds the capture devices.
pub const DEVICE_DIR: &'static str = "/dev";

/// What a run of texts holds.
pub open spec fn texts(items: Seq<String>) -> Seq<Seq<char>> {
    items.map_values(|item: String| item@)
}

/// Whether a directory entry names a capture device.
pub open spec fn is_candidate(entry: Seq<char>) -> bool {
    DEVICE_PREFIX@.is_prefix_of(entry)
}

/// The capture devices among the entries of a directory, in their order.
pub open spec fn candidates(entries: Seq<Seq<char>>) -> Seq<Seq<char>> {
    entries.filter(|entry: Seq<char>| is_candidate(entry))
}

/// Whether `text` begins with `prefix`.
pub fn starts_with(text: &str, prefix: &str) -> (begins: bool)
    ensures
        begins == prefix@.is_prefix_of(text@),
{
    let prefix_len = prefix.unicode_len();
    if prefix_len > text.unicode_len() {
        return false;
    }
    let head = text.substring_char(0, prefix_len);
    same_text(head, prefix)
}

/// A pixel count as the engine reports it, negative counts taken as zero.
pub open spec fn dimension(value: i32) -> u32 {
    if value < 0 {
        0
    } else {
        value as u32
    }
}

/// Whether a message ends the task that drains the source's event bus: the
/// end of the stream and errors do, everything else is passed over.
pub fn message_loop(event: &BusEvent) -> (ends: bool)
    ensures
        ends == event@.ends_stream(),
{
    event.ends_stream()
}

/// Owns capture devices.
pub trait Source: Sync + Send {
    /// The capture devices among the entries of the device directory.
    fn scan(&self, entries: Vec<String>) -> Result<Vec<String>, PipelineError>;

    /// The session that claims `device` and starts publishing its frames.
    fn start(&mut self, device: &str) -> Result<Session, PipelineError>;

    /// The session that stops publishing and gives `device` back.
    fn stop(&mut self, device: &str) -> Session;
}

/// What a [`VideoSource`] holds.
pub struct VideoSourceModel {
    /// The directory of the frame sockets.
    pub fd_dir: Seq<char>,
    pub pipeline_str: Seq<char>,
    /// The state of the capture pipeline, if one was ever asked for.
    pub state: Option<PipelineState>,
    /// The device that was last asked for.
    pub device: Seq<char>,
}

impl VideoSourceModel {
    /// The socket on which the frames of `device` are published.
    pub open spec fn socket_path(self, device: Seq<char>) -> Seq<char> {
        self.fd_dir + "/"@ + device + ".sock"@
    }

    /// The device file of `device`.
    pub open spec fn device_path(device: Seq<char>) -> Seq<char> {
        DEVICE_DIR@ + "/"@ + device
    }

    /// Whether a device is being captured.
    pub open spec fn playing(self) -> bool {
        self.state == Some(PipelineState::Playing)
    }

    /// Whether `device` is the device that is being captured.
    pub open spec fn claims(self, device: Seq<char>) -> bool {
        self.playing() && self.device == device
    }

    /// The commands that start the capture of `device`: build the pipeline,
    /// point its sink at the socket and its source at the device, play, wait
    /// until it runs, watch its bus, and wait for the negotiated
    /// capabilities.
    pub open spec fn start_steps(self, device: Seq<char>) -> Seq<StepModel> {
        seq![
            StepModel {
                role: Role::Source,
                command: CommandModel::Build { descriptor: self.pipeline_str },
                on_failure: Failure::Abort(PipelineError::ParseError),
            },
            StepModel {
                role: Role::Source,
                command: CommandModel::Configure {
                    slot: Slot::VideoSink,
                    property: Property::SocketPath,
                    value: ValueModel::Text(self.socket_path(device)),
                },
                on_failure: Failure::Ignore,
            },
            StepModel {
                role: Role::Source,
                command: CommandModel::Configure {
                    slot: Slot::VideoSource,
                    property: Property::Device,
                    value: ValueModel::Text(Self::device_path(device)),
                },
                on_failure: Failure::Ignore,
            },
            StepModel {
                role: Role::Source,
                command: CommandModel::Play,
                on_failure: Failure::Unwind(PipelineError::EncodingError),
            },
            StepModel {
                role: Role::Source,
                command: CommandModel::AwaitRunning { poll_ms: POLL_MS },
                on_failure: Failure::Unwind(PipelineError::EncodingError),
            },
            StepModel {
                role: Role::Source,
                command: CommandModel::WatchBus,
                on_failure: Failure::Ignore,
            },
            StepModel {
                role: Role::Source,
                command: CommandModel::AwaitCaps { poll_ms: POLL_MS },
                on_failure: Failure::Unwind(PipelineError::EncodingError),
            },
        ]
    }

    /// The commands that give the device back after a start that failed
    /// half way.
    pub open spec fn start_rollback() -> Seq<StepModel> {
        seq![
            StepModel {
                role: Role::Source,
                command: CommandModel::Halt,
                on_failure: Failure::Ignore,
            },
        ]
    }

    /// The commands that stop the capture: send the end of the stream, wait
    /// until the bus has seen it, and tear the pipeline down.
    pub open spec fn stop_steps() -> Seq<StepModel> {
        seq![
            StepModel {
                role: Role::Source,
                command: CommandModel::SendEos,
                on_failure: Failure::Ignore,
            },
            StepModel {
                role: Role::Source,
                command: CommandModel::AwaitEos,
                on_failure: Failure::Ignore,
            },
            StepModel {
                role: Role::Source,
                command: CommandModel::Halt,
                on_failure: Failure::Abort(PipelineError::EncodingError),
            },
        ]
    }

    /// The source while a start of `device` is under way.
    pub open spec fn starting(self, device: Seq<char>) -> VideoSourceModel {
        VideoSourceModel { state: Some(PipelineState::Prepared), device, ..self }
    }

    /// Whether `session` settles a start that is under way: the session has
    /// ended and the source is waiting for it.
    pub open spec fn settles(self, session: SessionModel) -> bool {
        session.finished() && self.state == Some(PipelineState::Prepared)
    }

    /// How a start ended: with the engine's capabilities where every command
    /// succeeded, with `ParseError` where the engine reported none, and
    /// with the session's error otherwise.
    pub open spec fn start_verdict(self, session: SessionModel) -> Option<
        Result<CapsModel, PipelineError>,
    > {
        if !self.settles(session) {
            None
        } else {
            match session.failure {
                Some(error) => Some(Err(error)),
                None => match session.caps {
                    Some(caps) => Some(Ok(caps)),
                    None => Some(Err(PipelineError::ParseError)),
                },
            }
        }
    }

    /// The source after a start was settled: playing where it succeeded,
    /// failed, and the device unclaimed, where it did not.
    pub open spec fn after_start(self, session: SessionModel) -> VideoSourceModel {
        match self.start_verdict(session) {
            None => self,
            Some(Ok(_)) => VideoSourceModel { state: Some(PipelineState::Playing), ..self },
            Some(Err(_)) => VideoSourceModel { state: Some(PipelineState::Error), ..self },
        }
    }

    /// The source after `stop(device)`: stopped, and the device free, where
    /// `device` was being captured; unchanged otherwise.
    pub open spec fn after_stop(self, device: Seq<char>) -> VideoSourceModel {
        if self.claims(device) {
            VideoSourceModel { state: Some(PipelineState::Stopped), ..self }
        } else {
            self
        }
    }

    /// The session of `stop(device)`: nothing to do where `device` is not
    /// being captured.
    pub open spec fn stop_session(self, device: Seq<char>) -> SessionModel {
        if self.claims(device) {
            SessionModel::fresh(Self::stop_steps(), Seq::empty())
        } else {
            SessionModel::fresh(Seq::empty(), Seq::empty())
        }
    }
}

/// The source of one capture device.
#[derive(Debug)]
pub struct VideoSource {
    fd_dir: String,
    pipeline_str: String,
    handle: Option<PipelineHandle>,
    device: String,
}

impl View for VideoSource {
    type V = VideoSourceModel;

    closed spec fn view(&self) -> VideoSourceModel {
        VideoSourceModel {
            fd_dir: self.fd_dir@,
            pipeline_str: self.pipeline_str@,
            state: match self.handle {
                Some(handle) => Some(handle@.state),
                None => None,
            },
            device: self.device@,
        }
    }
}

impl VideoSource {
    /// The socket on which the frames of `device` are published.
    pub fn socket_path(&self, device: &str) -> (path: String)
        ensures
            path@ == self@.socket_path(device@),
    {
        let mut path = self.fd_dir.clone();
        path.append("/");
        path.append(device);
        path.append(".sock");
        path
    }

    /// The device file of `device`.
    pub fn device_path(device: &str) -> (path: String)
        ensures
            path@ == VideoSourceModel::device_path(device@),
    {
        let mut path = String::from_str(DEVICE_DIR);
        path.append("/");
        path.append(device);
        path
    }

    /// Whether `device` is the device that is being captured.
    pub fn claims(&self, device: &str) -> (claimed: bool)
        ensures
            claimed == self@.claims(device@),
    {
        match &self.handle {
            Some(handle) => handle.current_state() == PipelineState::Playing && same_text(
                self.device.as_str(),
                device,
            ),
            None => false,
        }
    }

    /// Whether a device is being captured.
    pub fn is_playing(&self) -> (playing: bool)
        ensures
            playing == self@.playing(),
    {
        match &self.handle {
            Some(handle) => handle.current_state() == PipelineState::Playing,
            None => false,
        }
    }

    /// The commands that start the capture of `device`.
    pub fn start_steps(&self, device: &str) -> (steps: Vec<Step>)
        ensures
            script_model(steps@) == self@.start_steps(device@),
    {
        let mut steps: Vec<Step> = Vec::new();
        steps.push(
            Step::new(
                Role::Source,
                Command::Build { descriptor: self.pipeline_str.clone() },
                Failure::Abort(PipelineError::ParseError),
            ),
        );
        steps.push(
            Step::configure_text(
                Role::Source,
                Slot::VideoSink,
                Property::SocketPath,
                self.socket_path(device),
            ),
        );
        steps.push(
            Step::configure_text(
                Role::Source,
                Slot::VideoSource,
                Property::Device,
                Self::device_path(device),
            ),
        );
        steps.push(
            Step::new(Role::Source, Command::Play, Failure::Unwind(PipelineError::EncodingError)),
        );
        steps.push(
            Step::new(
                Role::Source,
                Command::AwaitRunning { poll_ms: POLL_MS },
                Failure::Unwind(PipelineError::EncodingError),
            ),
        );
        steps.push(Step::lenient(Role::Source, Command::WatchBus));
        steps.push(
            Step::new(
                Role::Source,
                Command::AwaitCaps { poll_ms: POLL_MS },
                Failure::Unwind(PipelineError::EncodingError),
            ),
        );
        assert(script_model(steps@) =~= self@.start_steps(device@));
        steps
    }

    /// The commands that give the device back after a start that failed
    /// half way.
    pub fn start_rollback() -> (steps: Vec<Step>)
        ensures
            script_model(steps@) == VideoSourceModel::start_rollback(),
    {
        let mut steps: Vec<Step> = Vec::new();
        steps.push(Step::lenient(Role::Source, Command::Halt));
        assert(script_model(steps@) =~= VideoSourceModel::start_rollback());
        steps
    }

    /// The commands that stop the capture.
    pub fn stop_steps() -> (steps: Vec<Step>)
        ensures
            script_model(steps@) == VideoSourceModel::stop_steps(),
    {
        let mut steps: Vec<Step> = Vec::new();
        steps.push(Step::lenient(Role::Source, Command::SendEos));
        steps.push(Step::lenient(Role::Source, Command::AwaitEos));
        steps.push(
            Step::new(Role::Source, Command::Halt, Failure::Abort(PipelineError::EncodingError)),
        );
        assert(script_model(steps@) =~= VideoSourceModel::stop_steps());
        steps
    }

    /// Notes that a start of `device` is under way.
    pub(crate) fn begin_start(&mut self, device: &str)
        ensures
            final(self)@ == old(self)@.starting(device@),
    {
        let mut handle = PipelineHandle::new(self.pipeline_str.clone());
        handle.apply(Signal::Configured);
        self.handle = Some(handle);
        self.device = String::from_str(device);
    }

    /// Gives `device` back if it is being captured: the source then counts
    /// as stopped, whatever the engine makes of the commands that stop it.
    pub(crate) fn release(&mut self, device: &str) -> (released: bool)
        ensures
            released == old(self)@.claims(device@),
            final(self)@ == old(self)@.after_stop(device@),
    {
        if !self.claims(device) {
            return false;
        }
        match &mut self.handle {
            Some(handle) => {
                handle.apply(Signal::Stopped);
            },
            None => {},
        }
        true
    }

    /// The stream properties that the engine negotiated for the device.
    pub fn get_video_info(&self, caps: &StreamCaps) -> (info: Option<VideoSourceInfo>)
        ensures
            info matches Some(info) && info.device@ == self@.device && info.width == dimension(
                caps.width,
            ) && info.height == dimension(caps.height) && info.format@ == caps.format@,
    {
        Some(
            VideoSourceInfo {
                device: self.device.clone(),
                width: if caps.width < 0 {
                    0
                } else {
                    caps.width as u32
                },
                height: if caps.height < 0 {
                    0
                } else {
                    caps.height as u32
                },
                format: caps.format.clone(),
            },
        )
    }

    /// Settles a start once its session has ended: the source is playing and
    /// the negotiated stream properties are returned where the start
    /// succeeded; the source has failed, the device is unclaimed and the
    /// error is returned where it did not. `None`, and nothing changes, while
    /// the session is running or where no start is under way.
    pub fn started(&mut self, session: &Session) -> (result: Option<
        Result<VideoSourceInfo, PipelineError>,
    >)
        ensures
            final(self)@ == old(self)@.after_start(session@),
            match old(self)@.start_verdict(session@) {
                None => result is None,
                Some(Err(error)) => result == Some(Err::<VideoSourceInfo, PipelineError>(error)),
                Some(Ok(caps)) => {
                    &&& result matches Some(Ok(info))
                    &&& info.device@ == old(self)@.device
                    &&& info.width == dimension(caps.width)
                    &&& info.height == dimension(caps.height)
                    &&& info.format@ == caps.format
                },
            },
    {
        let waiting = match &self.handle {
            Some(handle) => handle.current_state() == PipelineState::Prepared,
            None => false,
        };
        if !waiting {
            return None;
        }
        let outcome = match session.outcome() {
            None => {
                return None;
            },
            Some(outcome) => outcome,
        };
        let verdict: Result<VideoSourceInfo, PipelineError> = match outcome {
            Err(error) => Err(error),
            Ok(_) => match session.caps() {
                Some(caps) => match self.get_video_info(caps) {
                    Some(info) => Ok(info),
                    None => Err(PipelineError::ParseError),
                },
                None => Err(PipelineError::ParseError),
            },
        };
        let signal = if verdict.is_ok() {
            Signal::Played
        } else {
            Signal::Failed
        };
        match &mut self.handle {
            Some(handle) => {
                handle.apply(signal);
            },
            None => {},
        }
        Some(verdict)
    }
}

impl Source for VideoSource {
    fn scan(&self, entries: Vec<String>) -> (result: Result<Vec<String>, PipelineError>)
        ensures
            result matches Ok(devices) && texts(devices@) == candidates(texts(entries@)),
    {
        let mut devices: Vec<String> = Vec::new();
        let mut i: usize = 0;
        proof {
            reveal(Seq::filter);
            assert(texts(entries@).take(0) =~= Seq::empty());
            assert(texts(devices@) =~= Seq::empty());
        }
        while i < entries.len()
            invariant
                i <= entries.len(),
                texts(devices@) == candidates(texts(entries@).take(i as int)),
            decreases entries.len() - i,
        {
            let ghost seen = texts(entries@).take(i as int);
            let ghost found = devices@;
            let keep = starts_with(entries[i].as_str(), DEVICE_PREFIX);
            if keep {
                devices.push(entries[i].clone());
            }
            proof {
                reveal(Seq::filter);
                let next = texts(entries@).take(i as int + 1);
                assert(next.drop_last() =~= seen);
                assert(next.last() == entries@[i as int]@);
                if keep {
                    assert(texts(devices@) =~= texts(found).push(entries@[i as int]@));
                } else {
                    assert(texts(devices@) =~= texts(found));
                }
            }
            i = i + 1;
        }
        proof {
            assert(texts(entries@).take(entries@.len() as int) =~= texts(entries@));
        }
        Ok(devices)
    }

    fn start(&mut self, device: &str) -> (result: Result<Session, PipelineError>)
        ensures
            match result {
                Ok(session) => {
                    &&& !old(self)@.playing()
                    &&& session@ == SessionModel::fresh(
                        old(self)@.start_steps(device@),
                        VideoSourceModel::start_rollback(),
                    )
                    &&& final(self)@ == old(self)@.starting(device@)
                },
                Err(error) => {
                    &&& old(self)@.playing()
                    &&& error == PipelineError::AlreadyStarted
                    &&& final(self)@ == old(self)@
                },
            },
    {
        if self.is_playing() {
            return Err(PipelineError::AlreadyStarted);
        }
        let steps = self.start_steps(device);
        let rollback = Self::start_rollback();
        self.begin_start(device);
        Ok(Session::new(steps, rollback))
    }

    fn stop(&mut self, device: &str) -> (session: Session)
        ensures
            session@ == old(self)@.stop_session(device@),
            final(self)@ == old(self)@.after_stop(device@),
    {
        if !self.release(device) {
            return Session::idle();
        }
        let steps = Self::stop_steps();
        let rollback: Vec<Step> = Vec::new();
        assert(script_model(rollback@) =~= Seq::empty());
        Session::new(steps, rollback)
    }
}

/// What a [`VideoSourceBuilder`] holds.
pub struct VideoSourceBuilderModel {
    pub fd_dir: Seq<char>,
    pub pipeline_str: Seq<char>,
}

/// The settings of a source that nobody has configured: sockets in `/dev`,
/// frames captured from `/dev/video0`.
pub open spec fn default_video_source() -> VideoSourceBuilderModel {
    VideoSourceBuilderModel {
        fd_dir: "/dev"@,
        pipeline_str: "v4l2src name=video-source device=/dev/video0 ! unixfdsink name=video-sink"@,
    }
}

/// Collects the settings of a [`VideoSource`].
pub struct VideoSourceBuilder {
    fd_dir: String,
    pipeline_str: String,
}

impl View for VideoSourceBuilder {
    type V = VideoSourceBuilderModel;

    closed spec fn view(&self) -> VideoSourceBuilderModel {
        VideoSourceBuilderModel { fd_dir: self.fd_dir@, pipeline_str: self.pipeline_str@ }
    }
}

impl VideoSourceBuilder {
    pub fn new() -> (builder: VideoSourceBuilder)
        ensures
            builder@ == default_video_source(),
    {
        VideoSourceBuilder {
            fd_dir: String::from_str("/dev"),
            pipeline_str: String::from_str(
                "v4l2src name=video-source device=/dev/video0 ! unixfdsink name=video-sink",
            ),
        }
    }

    pub fn with_fd_dir(self, fd_dir: &str) -> (builder: VideoSourceBuilder)
        ensures
            builder@ == (VideoSourceBuilderModel { fd_dir: fd_dir@, ..self@ }),
    {
        let mut builder = self;
        builder.fd_dir = String::from_str(fd_dir);
        builder
    }

    pub fn with_pipeline(self, pipeline: &str) -> (builder: VideoSourceBuilder)
        ensures
            builder@ == (VideoSourceBuilderModel { pipeline_str: pipeline@, ..self@ }),
    {
        let mut builder = self;
        builder.pipeline_str = String::from_str(pipeline);
        builder
    }

    /// A source that captures nothing yet.
    pub fn build(&self) -> (source: VideoSource)
        ensures
            source@ == (VideoSourceModel {
                fd_dir: self@.fd_dir,
                pipeline_str: self@.pipeline_str,
                state: Some(PipelineState::Idle),
                device: Seq::empty(),
            }),
    {
        VideoSource {
            fd_dir: self.fd_dir.clone(),
            pipeline_str: self.pipeline_str.clone(),
            handle: Some(PipelineHandle::new(self.pipeline_str.clone())),
            device: String::new(),
        }
    }
}

} // verus!
