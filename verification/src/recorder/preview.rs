//! The live preview: a long-lived pipeline that republishes the frames of the
//! shared socket to an interactive sink. It runs whether or not a recording
//! does.

use crate::recorder::common::PipelineError;
use crate::recorder::pipeline::{
    Command, CommandModel, Failure, HandleModel, PipelineHandle, PipelineState, Property, Role,
    Signal, Slot, Step, StepModel, ValueModel, advance_from, build_script, build_steps,
    empty_script, halt_script, halt_steps, handle_model, moved_to, script_model, state_of,
};
use crate::recorder::session::{Session, SessionModel};
use vstd::prelude::*;

verus! {

/// Shows the stream while it is captured.
pub trait Preview: Sync + Send {
    /// The session that starts the pipeline in `gst_pipeline`.
    fn start(&self, gst_pipeline: &mut Option<PipelineHandle>) -> Result<Session, PipelineError>;

    /// The session that stops the pipeline in `gst_pipeline`.
    fn stop(&self, gst_pipeline: &mut Option<PipelineHandle>) -> Result<Session, PipelineError>;

    /// The session that builds a pipeline from `cmd`.
    fn prepare_pipeline(&self, cmd: &str) -> Session;

    /// The descriptor of the preview pipeline.
    fn get_pipeline(&self) -> String;
}

/// What a [`PreviewImpl`] holds.
pub struct PreviewModel {
    pub device: Seq<char>,
    pub socket_path: Seq<char>,
    pub pipeline_str: Seq<char>,
}

impl PreviewModel {
    /// The commands that start the preview: attach its source to the shared
    /// socket and play. Nothing is waited for: a preview has no end.
    pub open spec fn start_steps(self) -> Seq<StepModel> {
        seq![
            StepModel {
                role: Role::Preview,
                command: CommandModel::Configure {
                    slot: Slot::VideoSource,
                    property: Property::SocketPath,
                    value: ValueModel::Text(self.socket_path),
                },
                on_failure: Failure::Ignore,
            },
            StepModel {
                role: Role::Preview,
                command: CommandModel::Play,
                on_failure: Failure::Unwind(PipelineError::EncodingError),
            },
        ]
    }

    /// The commands that stop the preview: send the end of the stream, whose
    /// failure is passed over, and tear down; `on_failure` says what a
    /// teardown that fails leads to.
    pub open spec fn stop_steps(on_failure: Failure) -> Seq<StepModel> {
        seq![
            StepModel {
                role: Role::Preview,
                command: CommandModel::SendEos,
                on_failure: Failure::Ignore,
            },
            StepModel { role: Role::Preview, command: CommandModel::Halt, on_failure },
        ]
    }

    /// Whether the preview can be started: its pipeline is built and was
    /// never started.
    pub open spec fn can_start(pipeline: Option<HandleModel>) -> bool {
        state_of(pipeline) == Some(PipelineState::Idle)
    }

    /// Whether the preview can be stopped: its pipeline is playing.
    pub open spec fn can_stop(pipeline: Option<HandleModel>) -> bool {
        state_of(pipeline) == Some(PipelineState::Playing)
    }
}

/// The preview of one device.
#[derive(Debug)]
pub struct PreviewImpl {
    device: String,
    socket_path: String,
    pipeline_str: String,
}

impl View for PreviewImpl {
    type V = PreviewModel;

    closed spec fn view(&self) -> PreviewModel {
        PreviewModel {
            device: self.device@,
            socket_path: self.socket_path@,
            pipeline_str: self.pipeline_str@,
        }
    }
}

impl PreviewImpl {
    /// The commands that start the preview.
    pub fn start_steps(&self) -> (steps: Vec<Step>)
        ensures
            script_model(steps@) == self@.start_steps(),
    {
        let mut steps: Vec<Step> = Vec::new();
        steps.push(
            Step::configure_text(
                Role::Preview,
                Slot::VideoSource,
                Property::SocketPath,
                self.socket_path.clone(),
            ),
        );
        steps.push(
            Step::new(Role::Preview, Command::Play, Failure::Unwind(PipelineError::EncodingError)),
        );
        assert(script_model(steps@) =~= self@.start_steps());
        steps
    }

    /// The commands that stop the preview.
    pub fn stop_steps(on_failure: Failure) -> (steps: Vec<Step>)
        ensures
            script_model(steps@) == PreviewModel::stop_steps(on_failure),
    {
        let mut steps: Vec<Step> = Vec::new();
        steps.push(Step::lenient(Role::Preview, Command::SendEos));
        steps.push(Step::new(Role::Preview, Command::Halt, on_failure));
        assert(script_model(steps@) =~= PreviewModel::stop_steps(on_failure));
        steps
    }

    pub fn socket_path(&self) -> (path: String)
        ensures
            path@ == self@.socket_path,
    {
        self.socket_path.clone()
    }

    pub fn device(&self) -> (device: String)
        ensures
            device@ == self@.device,
    {
        self.device.clone()
    }
}

impl Preview for PreviewImpl {
    /// Refuses with `EncodingError`, and changes nothing, unless the
    /// pipeline is built and was never started. Otherwise the pipeline is
    /// prepared and the session of the start is returned; a start that fails
    /// tears the pipeline down.
    fn start(&self, gst_pipeline: &mut Option<PipelineHandle>) -> (result: Result<
        Session,
        PipelineError,
    >)
        ensures
            match result {
                Ok(session) => {
                    &&& PreviewModel::can_start(handle_model(*old(gst_pipeline)))
                    &&& session@ == SessionModel::fresh(
                        self@.start_steps(),
                        halt_steps(Role::Preview),
                    )
                    &&& handle_model(*final(gst_pipeline)) == moved_to(
                        handle_model(*old(gst_pipeline)),
                        PipelineState::Prepared,
                    )
                },
                Err(error) => {
                    &&& !PreviewModel::can_start(handle_model(*old(gst_pipeline)))
                    &&& error == PipelineError::EncodingError
                    &&& handle_model(*final(gst_pipeline)) == handle_model(*old(gst_pipeline))
                },
            },
    {
        if !advance_from(gst_pipeline, PipelineState::Idle, Signal::Configured) {
            return Err(PipelineError::EncodingError);
        }
        Ok(Session::new(self.start_steps(), halt_script(Role::Preview)))
    }

    /// Refuses with `EncodingError`, and changes nothing, unless the
    /// pipeline is playing. Otherwise the pipeline counts as stopped from
    /// now on, whatever the engine makes of it, and the session of the stop
    /// is returned.
    fn stop(&self, gst_pipeline: &mut Option<PipelineHandle>) -> (result: Result<
        Session,
        PipelineError,
    >)
        ensures
            match result {
                Ok(session) => {
                    &&& PreviewModel::can_stop(handle_model(*old(gst_pipeline)))
                    &&& session@ == SessionModel::fresh(
                        PreviewModel::stop_steps(Failure::Abort(PipelineError::EncodingError)),
                        Seq::empty(),
                    )
                    &&& handle_model(*final(gst_pipeline)) == moved_to(
                        handle_model(*old(gst_pipeline)),
                        PipelineState::Stopped,
                    )
                },
                Err(error) => {
                    &&& !PreviewModel::can_stop(handle_model(*old(gst_pipeline)))
                    &&& error == PipelineError::EncodingError
                    &&& handle_model(*final(gst_pipeline)) == handle_model(*old(gst_pipeline))
                },
            },
    {
        if !advance_from(gst_pipeline, PipelineState::Playing, Signal::Stopped) {
            return Err(PipelineError::EncodingError);
        }
        Ok(
            Session::new(
                Self::stop_steps(Failure::Abort(PipelineError::EncodingError)),
                empty_script(),
            ),
        )
    }

    fn prepare_pipeline(&self, cmd: &str) -> (session: Session)
        ensures
            session@ == SessionModel::fresh(
                build_steps(Role::Preview, cmd@, Failure::Abort(PipelineError::ParseError)),
                Seq::empty(),
            ),
    {
        Session::new(
            build_script(Role::Preview, cmd, Failure::Abort(PipelineError::ParseError)),
            empty_script(),
        )
    }

    fn get_pipeline(&self) -> (descriptor: String)
        ensures
            descriptor@ == self@.pipeline_str,
    {
        self.pipeline_str.clone()
    }
}

/// The settings of a preview that nobody has configured: device `video0`,
/// frames read from `/tmp/video0.sock` and served to browsers.
pub open spec fn default_preview() -> PreviewModel {
    PreviewModel {
        device: "video0"@,
        socket_path: "/tmp/video0.sock"@,
        pipeline_str: "unixfdsrc name=video-source ! queue ! videoconvert ! webrtcsink  run-signalling-server=true run-web-server=true web-server-directory=client name=video-sink"@,
    }
}

/// Collects the settings of a [`PreviewImpl`].
pub struct PreviewBuilder {
    device: String,
    socket_path: String,
    pipeline_str: String,
}

impl View for PreviewBuilder {
    type V = PreviewModel;

    closed spec fn view(&self) -> PreviewModel {
        PreviewModel {
            device: self.device@,
            socket_path: self.socket_path@,
            pipeline_str: self.pipeline_str@,
        }
    }
}

impl PreviewBuilder {
    pub fn new() -> (builder: PreviewBuilder)
        ensures
            builder@ == default_preview(),
    {
        PreviewBuilder {
            device: String::from_str("video0"),
            socket_path: String::from_str("/tmp/video0.sock"),
            pipeline_str: String::from_str(
                "unixfdsrc name=video-source ! queue ! videoconvert ! webrtcsink  run-signalling-server=true run-web-server=true web-server-directory=client name=video-sink",
            ),
        }
    }

    pub fn with_device(self, device: &str) -> (builder: PreviewBuilder)
        ensures
            builder@ == (PreviewModel { device: device@, ..self@ }),
    {
        let mut builder = self;
        builder.device = String::from_str(device);
        builder
    }

    pub fn with_socket_path(self, socket_path: &str) -> (builder: PreviewBuilder)
        ensures
            builder@ == (PreviewModel { socket_path: socket_path@, ..self@ }),
    {
        let mut builder = self;
        builder.socket_path = String::from_str(socket_path);
        builder
    }

    pub fn with_pipeline_str(self, pipeline_str: &str) -> (builder: PreviewBuilder)
        ensures
            builder@ == (PreviewModel { pipeline_str: pipeline_str@, ..self@ }),
    {
        let mut builder = self;
        builder.pipeline_str = String::from_str(pipeline_str);
        builder
    }

    pub fn build(&self) -> (preview: PreviewImpl)
        ensures
            preview@ == self@,
    {
        PreviewImpl {
            device: self.device.clone(),
            socket_path: self.socket_path.clone(),
            pipeline_str: self.pipeline_str.clone(),
        }
    }
}

} // verus!
