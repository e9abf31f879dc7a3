//! One-shot capture of a single still image from the shared frame socket.

use crate::dtos::messages::StillInfo;
use crate::recorder::common::PipelineError;
use crate::recorder::pipeline::{
    Command, CommandModel, Failure, Property, ReplyModel, Role, Slot, Step, StepModel,
    ValueModel, script_model,
};
use crate::recorder::session::{Session, SessionModel};
use vstd::prelude::*;

verus! {

/// How long one read of the event bus waits for a message, in milliseconds.
pub const BUS_POLL_MS: u64 = 1000;

/// How long a finished capture rests before its pipeline is torn down, in
/// milliseconds: the encoder may still be writing.
pub const SETTLE_MS: u64 = 1000;

/// Captures single images.
pub trait StillRecorder: Sync + Send {
    /// The session that captures one image under `name`.
    fn take_still(&self, name: &str) -> Session;
}

/// What a [`StillRecorderImpl`] holds.
pub struct StillRecorderModel {
    pub device: Seq<char>,
    pub prefix: Seq<char>,
    pub socket_path: Seq<char>,
    pub output_dir: Seq<char>,
    pub pipeline_str: Seq<char>,
}

impl StillRecorderModel {
    /// The file of the still called `name`: the output directory, then the
    /// prefix, a hyphen, the name and the extension.
    pub open spec fn still_file(self, name: Seq<char>) -> Seq<char> {
        self.output_dir + "/"@ + self.prefix + "-"@ + name + ".jpg"@
    }

    /// The commands of one capture: build the one-shot pipeline, attach it to
    /// the shared socket, point it at the output file, play, read the bus
    /// until the stream ends, rest, and tear down.
    pub open spec fn capture_steps(self, name: Seq<char>) -> Seq<StepModel> {
        seq![
            StepModel {
                role: Role::Still,
                command: CommandModel::Build { descriptor: self.pipeline_str },
                on_failure: Failure::Abort(PipelineError::ParseError),
            },
            StepModel {
                role: Role::Still,
                command: CommandModel::Configure {
                    slot: Slot::VideoSource,
                    property: Property::SocketPath,
                    value: ValueModel::Text(self.socket_path),
                },
                on_failure: Failure::Ignore,
            },
            StepModel {
                role: Role::Still,
                command: CommandModel::Configure {
                    slot: Slot::VideoSink,
                    property: Property::Location,
                    value: ValueModel::Text(self.still_file(name)),
                },
                on_failure: Failure::Ignore,
            },
            StepModel {
                role: Role::Still,
                command: CommandModel::Play,
                on_failure: Failure::Unwind(PipelineError::EncodingError),
            },
            StepModel {
                role: Role::Still,
                command: CommandModel::PollBus { timeout_ms: BUS_POLL_MS },
                on_failure: Failure::Ignore,
            },
            StepModel {
                role: Role::Still,
                command: CommandModel::Pause { millis: SETTLE_MS },
                on_failure: Failure::Ignore,
            },
            StepModel {
                role: Role::Still,
                command: CommandModel::Halt,
                on_failure: Failure::Ignore,
            },
        ]
    }

    /// What a capture does when its pipeline does not start: tear it down.
    pub open spec fn capture_rollback(self) -> Seq<StepModel> {
        seq![
            StepModel {
                role: Role::Still,
                command: CommandModel::Halt,
                on_failure: Failure::Ignore,
            },
        ]
    }

    /// The session of one capture, before its first command.
    pub open spec fn capture(self, name: Seq<char>) -> SessionModel {
        SessionModel::fresh(self.capture_steps(name), self.capture_rollback())
    }
}

/// A capture whose pipeline was built is torn down whatever happens next:
/// whether the stream ends, a stage reports an error, the pipeline does not
/// play, or the teardown itself fails, the capture does not end before it
/// has issued the teardown, and the teardown is the last command it issues.
pub proof fn lemma_capture_tears_down(
    recorder: StillRecorderModel,
    name: Seq<char>,
    built: ReplyModel,
    replies: Seq<ReplyModel>,
)
    requires
        !(built is Failed),
        recorder.capture(name).advance(built).run(replies).finished(),
    ensures
        recorder.capture(name).advance(built).last_issued(replies) == Some(
            StepModel {
                role: Role::Still,
                command: CommandModel::Halt,
                on_failure: Failure::Ignore,
            },
        ),
{
    let after_build = recorder.capture(name).advance(built);
    assert(after_build.cursor == 1);
    assert(after_build.steps.len() == 7);
    after_build.lemma_ends_with_the_last_command(replies);
}

/// The still recorder of one device.
#[derive(Debug)]
pub struct StillRecorderImpl {
    device: String,
    prefix: String,
    socket_path: String,
    output_dir: String,
    pipeline_str: String,
}

impl View for StillRecorderImpl {
    type V = StillRecorderModel;

    closed spec fn view(&self) -> StillRecorderModel {
        StillRecorderModel {
            device: self.device@,
            prefix: self.prefix@,
            socket_path: self.socket_path@,
            output_dir: self.output_dir@,
            pipeline_str: self.pipeline_str@,
        }
    }
}

impl StillRecorderImpl {
    /// The file that the still called `name` is written to.
    pub fn still_file(&self, name: &str) -> (path: String)
        ensures
            path@ == self@.still_file(name@),
    {
        let mut path = self.output_dir.clone();
        path.append("/");
        path.append(self.prefix.as_str());
        path.append("-");
        path.append(name);
        path.append(".jpg");
        path
    }

    pub fn device(&self) -> (device: String)
        ensures
            device@ == self@.device,
    {
        self.device.clone()
    }

    /// The result of a capture, once its session has ended: the file of the
    /// still on success, the session's error otherwise. Width, height and
    /// format are not queried. `None` while the session is still running.
    pub fn finish_still(&self, name: &str, session: &Session) -> (result: Option<
        Result<StillInfo, PipelineError>,
    >)
        ensures
            match session@.outcome() {
                None => result is None,
                Some(Err(error)) => result == Some(Err::<StillInfo, PipelineError>(error)),
                Some(Ok(_)) => {
                    &&& result matches Some(Ok(info))
                    &&& info.device@ == self@.device
                    &&& info.width == 0
                    &&& info.height == 0
                    &&& info.format@ == Seq::<char>::empty()
                    &&& info.still_file@ == self@.still_file(name@)
                },
            },
    {
        match session.outcome() {
            None => None,
            Some(Err(error)) => Some(Err(error)),
            Some(Ok(_)) => Some(
                Ok(
                    StillInfo {
                        device: self.device.clone(),
                        width: 0,
                        height: 0,
                        format: String::new(),
                        still_file: self.still_file(name),
                    },
                ),
            ),
        }
    }
}

impl StillRecorder for StillRecorderImpl {
    fn take_still(&self, name: &str) -> (session: Session)
        ensures
            session@ == self@.capture(name@),
    {
        let mut steps: Vec<Step> = Vec::new();
        steps.push(
            Step::new(
                Role::Still,
                Command::Build { descriptor: self.pipeline_str.clone() },
                Failure::Abort(PipelineError::ParseError),
            ),
        );
        steps.push(
            Step::configure_text(
                Role::Still,
                Slot::VideoSource,
                Property::SocketPath,
                self.socket_path.clone(),
            ),
        );
        steps.push(
            Step::configure_text(
                Role::Still,
                Slot::VideoSink,
                Property::Location,
                self.still_file(name),
            ),
        );
        steps.push(
            Step::new(Role::Still, Command::Play, Failure::Unwind(PipelineError::EncodingError)),
        );
        steps.push(Step::lenient(Role::Still, Command::PollBus { timeout_ms: BUS_POLL_MS }));
        steps.push(Step::lenient(Role::Still, Command::Pause { millis: SETTLE_MS }));
        steps.push(Step::lenient(Role::Still, Command::Halt));
        let mut rollback: Vec<Step> = Vec::new();
        rollback.push(Step::lenient(Role::Still, Command::Halt));
        proof {
            assert(script_model(steps@) =~= self@.capture_steps(name@));
            assert(script_model(rollback@) =~= self@.capture_rollback());
        }
        Session::new(steps, rollback)
    }
}

/// What a [`StillRecorderBuilder`] holds.
pub struct StillRecorderBuilder {
    device: String,
    prefix: String,
    socket_path: String,
    pipeline_str: String,
    output_dir: String,
}

impl View for StillRecorderBuilder {
    type V = StillRecorderModel;

    closed spec fn view(&self) -> StillRecorderModel {
        StillRecorderModel {
            device: self.device@,
            prefix: self.prefix@,
            socket_path: self.socket_path@,
            output_dir: self.output_dir@,
            pipeline_str: self.pipeline_str@,
        }
    }
}

/// The settings of a still recorder that nobody has configured: device
/// `video0`, stills named `still-…` in the working directory, frames read
/// from `/tmp/video0.sock` and encoded as one JPEG snapshot.
pub open spec fn default_still_recorder() -> StillRecorderModel {
    StillRecorderModel {
        device: "video0"@,
        prefix: "still"@,
        socket_path: "/tmp/video0.sock"@,
        output_dir: "./"@,
        pipeline_str: "unixfdsrc name=video-source ! queue ! videoconvert ! jpegenc snapshot=true ! queue ! filesink name=video-sink"@,
    }
}

impl StillRecorderBuilder {
    pub fn new() -> (builder: StillRecorderBuilder)
        ensures
            builder@ == default_still_recorder(),
    {
        StillRecorderBuilder {
            device: String::from_str("video0"),
            prefix: String::from_str("still"),
            socket_path: String::from_str("/tmp/video0.sock"),
            pipeline_str: String::from_str(
                "unixfdsrc name=video-source ! queue ! videoconvert ! jpegenc snapshot=true ! queue ! filesink name=video-sink",
            ),
            output_dir: String::from_str("./"),
        }
    }

    pub fn with_device(self, device: &str) -> (builder: StillRecorderBuilder)
        ensures
            builder@ == (StillRecorderModel { device: device@, ..self@ }),
    {
        let mut builder = self;
        builder.device = String::from_str(device);
        builder
    }

    pub fn with_still_file_prefix(self, still_file_prefix: &str) -> (builder: StillRecorderBuilder)
        ensures
            builder@ == (StillRecorderModel { prefix: still_file_prefix@, ..self@ }),
    {
        let mut builder = self;
        builder.prefix = String::from_str(still_file_prefix);
        builder
    }

    pub fn with_socket_path(self, socket_path: &str) -> (builder: StillRecorderBuilder)
        ensures
            builder@ == (StillRecorderModel { socket_path: socket_path@, ..self@ }),
    {
        let mut builder = self;
        builder.socket_path = String::from_str(socket_path);
        builder
    }

    pub fn with_pipeline_str(self, pipeline_str: &str) -> (builder: StillRecorderBuilder)
        ensures
            builder@ == (StillRecorderModel { pipeline_str: pipeline_str@, ..self@ }),
    {
        let mut builder = self;
        builder.pipeline_str = String::from_str(pipeline_str);
        builder
    }

    pub fn with_output_dir(self, output_dir: &str) -> (builder: StillRecorderBuilder)
        ensures
            builder@ == (StillRecorderModel { output_dir: output_dir@, ..self@ }),
    {
        let mut builder = self;
        builder.output_dir = String::from_str(output_dir);
        builder
    }

    pub fn build(&self) -> (recorder: StillRecorderImpl)
        ensures
            recorder@ == self@,
    {
        StillRecorderImpl {
            device: self.device.clone(),
            prefix: self.prefix.clone(),
            socket_path: self.socket_path.clone(),
            output_dir: self.output_dir.clone(),
            pipeline_str: self.pipeline_str.clone(),
        }
    }
}

} // verus!
