//! The capture controller: the one entry point for starting and stopping the
//! source, recording, taking stills and showing the preview.
//!
//! A device is idle, or its source is active; while the source is active a
//! recording may run. The preview runs with the source, and a still is a
//! momentary excursion that leaves the controller as it was.

use crate::dtos::messages::{RecordingInfo, StillInfo, VideoSourceInfo};
use crate::recorder::common::PipelineError;
use crate::recorder::framehandler::{FrameError, SpriteBatch};
use crate::recorder::pipeline::{
    BusEvent, BusEventModel, CapsModel, Command, CommandModel, Failure, HandleModel, PipelineHandle,
    PipelineState, ReplyModel, Role, Signal, Step, StepModel, advance_from, build_script,
    build_steps,
    current_state_of, empty_script, halt_script, halt_steps, handle_model, join_scripts, moved_to,
    script_model, state_of,
};
use crate::recorder::preview::{Preview, PreviewImpl, PreviewModel};
use crate::recorder::session::{Session, SessionModel, start_verdict};
use crate::recorder::stillrecorder::{StillRecorder, StillRecorderImpl, StillRecorderModel};
use crate::recorder::videorecorder::{
    BusAction, BusActionModel, Recorder, VideoRecorder, VideoRecorderModel,
};
use crate::recorder::videosource::{
    Source, VideoSource, VideoSourceModel, candidates, dimension, texts,
};
use vstd::prelude::*;

verus! {

/// How long the preview's viewers are given to disconnect before the source
/// is stopped, in milliseconds.
pub const GRACE_MS: u64 = 1000;

/// Starts and stops the source and the recording, and takes stills.
pub trait VideoController: Sync + Send {
    /// The capture devices among the entries of the device directory.
    fn scan(&self, entries: Vec<String>) -> Result<Vec<String>, PipelineError>;

    /// The session that starts the source of `device`, and the preview.
    fn start(&mut self, device: &str) -> Result<Session, PipelineError>;

    /// The session that stops the preview and the source of `device`.
    fn stop(&mut self, device: &str) -> Session;

    /// The session that starts a recording.
    fn start_recording(&mut self) -> Result<Session, PipelineError>;

    /// The session that stops the recording.
    fn stop_recording(&mut self) -> Result<Session, PipelineError>;

    /// The session that takes a still of `device` called `still_file`.
    fn take_still(&self, device: &str, still_file: &str) -> Result<Session, PipelineError>;
}

/// What a [`VideoControllerImpl`] holds.
pub struct VideoControllerModel {
    pub recorder: VideoRecorderModel,
    pub still: StillRecorderModel,
    pub source: VideoSourceModel,
    pub preview: PreviewModel,
    pub recording_pipeline: Option<HandleModel>,
    pub preview_pipeline: Option<HandleModel>,
}

impl VideoControllerModel {
    /// Whether the source is active.
    pub open spec fn source_active(self) -> bool {
        self.source.playing()
    }

    /// Whether a recording runs.
    pub open spec fn recording_active(self) -> bool {
        state_of(self.recording_pipeline) == Some(PipelineState::Playing)
    }

    /// Whether the preview runs.
    pub open spec fn preview_active(self) -> bool {
        state_of(self.preview_pipeline) == Some(PipelineState::Playing)
    }

    /// A recording runs only while the source is active. This holds as long
    /// as the caller stops the recording before the source.
    pub open spec fn wf(self) -> bool {
        self.recording_active() ==> self.source_active()
    }

    /// Why `start` is refused, if it is: `AlreadyStarted` while the source is
    /// active.
    pub open spec fn start_error(self) -> Option<PipelineError> {
        if self.source_active() {
            Some(PipelineError::AlreadyStarted)
        } else {
            None
        }
    }

    /// The commands of `start`: those that start the source, then those
    /// that build and start the preview. A preview that cannot be built or
    /// started undoes the start.
    pub open spec fn start_steps(self, device: Seq<char>) -> Seq<StepModel> {
        self.source.start_steps(device) + build_steps(
            Role::Preview,
            self.preview.pipeline_str,
            Failure::Unwind(PipelineError::ParseError),
        ) + self.preview.start_steps()
    }

    /// The commands that undo a start that failed half way: tear down the
    /// preview, then the source.
    pub open spec fn start_rollback() -> Seq<StepModel> {
        halt_steps(Role::Preview) + halt_steps(Role::Source)
    }

    /// The session of `start`, before its first command.
    pub open spec fn start_session(self, device: Seq<char>) -> SessionModel {
        SessionModel::fresh(self.start_steps(device), Self::start_rollback())
    }

    /// The controller while a start of `device` is under way.
    pub open spec fn starting(self, device: Seq<char>) -> VideoControllerModel {
        VideoControllerModel {
            source: self.source.starting(device),
            preview_pipeline: Some(
                HandleModel {
                    descriptor: self.preview.pipeline_str,
                    state: PipelineState::Prepared,
                },
            ),
            ..self
        }
    }

    /// How a start ended, as far as `session` tells.
    pub open spec fn start_verdict(self, session: SessionModel) -> Option<
        Result<CapsModel, PipelineError>,
    > {
        self.source.start_verdict(session)
    }

    /// The controller after a start was settled: source and preview are
    /// active where it succeeded; the source has failed, the device is
    /// unclaimed and there is no preview where it did not.
    pub open spec fn after_started(self, session: SessionModel) -> VideoControllerModel {
        match self.start_verdict(session) {
            None => self,
            Some(Ok(_)) => VideoControllerModel {
                source: self.source.after_start(session),
                preview_pipeline: if state_of(self.preview_pipeline) == Some(
                    PipelineState::Prepared,
                ) {
                    moved_to(self.preview_pipeline, PipelineState::Playing)
                } else {
                    self.preview_pipeline
                },
                ..self
            },
            Some(Err(_)) => VideoControllerModel {
                source: self.source.after_start(session),
                preview_pipeline: None,
                ..self
            },
        }
    }

    /// The commands of `stop(device)`: none where `device` is not being
    /// captured; else those that stop the preview if it runs, whose failures
    /// are passed over, a pause, and those that stop the source.
    pub open spec fn stop_steps(self, device: Seq<char>) -> Seq<StepModel> {
        if !self.source.claims(device) {
            Seq::empty()
        } else {
            (if self.preview_active() {
                PreviewModel::stop_steps(Failure::Ignore)
            } else {
                Seq::empty()
            }) + seq![
                StepModel {
                    role: Role::Source,
                    command: CommandModel::Pause { millis: GRACE_MS },
                    on_failure: Failure::Ignore,
                },
            ] + VideoSourceModel::stop_steps()
        }
    }

    /// The session of `stop(device)`, before its first command.
    pub open spec fn stop_session(self, device: Seq<char>) -> SessionModel {
        SessionModel::fresh(self.stop_steps(device), Seq::empty())
    }

    /// The controller after `stop(device)`: where `device` was being
    /// captured it is free and there is no preview, whatever the engine
    /// makes of the commands. The recorder and its pipeline stay as they
    /// were: a recording that runs is not stopped.
    pub open spec fn after_stop(self, device: Seq<char>) -> VideoControllerModel {
        if !self.source.claims(device) {
            self
        } else {
            VideoControllerModel {
                source: self.source.after_stop(device),
                preview_pipeline: None,
                ..self
            }
        }
    }

    /// Why `start_recording` is refused, if it is: `EncodingError` while the
    /// source is not active, `AlreadyStarted` while a recording runs.
    pub open spec fn recording_error(self) -> Option<PipelineError> {
        if !self.source_active() {
            Some(PipelineError::EncodingError)
        } else if self.recording_active() {
            Some(PipelineError::AlreadyStarted)
        } else {
            None
        }
    }

    /// The commands of `start_recording`: build the recording pipeline, then
    /// start it.
    pub open spec fn recording_steps(self) -> Seq<StepModel> {
        build_steps(
            Role::Recording,
            self.recorder.pipeline,
            Failure::Abort(PipelineError::ParseError),
        ) + self.recorder.start_steps()
    }

    /// The session of `start_recording`, before its first command.
    pub open spec fn recording_session(self) -> SessionModel {
        SessionModel::fresh(self.recording_steps(), halt_steps(Role::Recording))
    }

    /// The controller while a start of the recording is under way: the
    /// thumbnail generator has begun anew.
    pub open spec fn recording(self) -> VideoControllerModel {
        VideoControllerModel {
            recorder: self.recorder.started(),
            recording_pipeline: Some(
                HandleModel { descriptor: self.recorder.pipeline, state: PipelineState::Prepared },
            ),
            ..self
        }
    }

    /// How the start of a recording ended, as far as `session` tells: as the
    /// session did, but with `EncodingError` where the source went away in
    /// the meantime.
    pub open spec fn recording_verdict(self, session: SessionModel) -> Option<
        Result<(), PipelineError>,
    > {
        match start_verdict(self.recording_pipeline, session) {
            None => None,
            Some(Err(error)) => Some(Err(error)),
            Some(Ok(_)) => if self.source_active() {
                Some(Ok(()))
            } else {
                Some(Err(PipelineError::EncodingError))
            },
        }
    }

    /// The controller after the start of a recording was settled.
    pub open spec fn after_recording_started(self, session: SessionModel) -> VideoControllerModel {
        match self.recording_verdict(session) {
            None => self,
            Some(Ok(_)) => VideoControllerModel {
                recording_pipeline: moved_to(self.recording_pipeline, PipelineState::Playing),
                ..self
            },
            Some(Err(_)) => VideoControllerModel {
                recording_pipeline: moved_to(self.recording_pipeline, PipelineState::Error),
                ..self
            },
        }
    }

    /// Why `stop_recording` is refused, if it is: `NotRunning` unless a
    /// recording runs.
    pub open spec fn stop_recording_error(self) -> Option<PipelineError> {
        VideoRecorderModel::stop_error(self.recording_pipeline)
    }

    /// The controller after `stop_recording` was accepted: no recording
    /// runs. The source is left alone.
    pub open spec fn after_stop_recording(self) -> VideoControllerModel {
        VideoControllerModel {
            recording_pipeline: moved_to(self.recording_pipeline, PipelineState::Stopped),
            ..self
        }
    }

    /// What the task that drains the bus of the pipeline of `role` does
    /// after `event`.
    pub open spec fn bus_action(self, role: Role, event: BusEventModel) -> BusActionModel {
        if role == Role::Recording {
            self.recorder.action(event)
        } else if event.ends_stream() {
            BusActionModel::Quit(Ok(None))
        } else {
            BusActionModel::Continue
        }
    }

    /// The controller after `event` on the bus of the pipeline of `role`:
    /// only the end of the recording's stream changes it.
    pub open spec fn after_message(self, role: Role, event: BusEventModel) -> VideoControllerModel {
        if role == Role::Recording {
            VideoControllerModel { recorder: self.recorder.after(event), ..self }
        } else {
            self
        }
    }

    /// Why `take_still` is refused, if it is: `NotRunning` unless `device`
    /// is being captured.
    pub open spec fn still_error(self, device: Seq<char>) -> Option<PipelineError> {
        if self.source.claims(device) {
            None
        } else {
            Some(PipelineError::NotRunning)
        }
    }
}

/// Whether every command of `steps` is answered by the success it waits for.
pub open spec fn all_succeed(steps: Seq<StepModel>, replies: Seq<ReplyModel>) -> bool {
    &&& replies.len() == steps.len()
    &&& forall|i: int|
        0 <= i < replies.len() ==> SessionModel::succeeds(steps[i], #[trigger] replies[i])
}

/// Starting the source of any device on an idle controller and stopping it
/// right away succeeds both times if the engine carries out every command,
/// and the device is free again afterwards: nobody claims it, nothing runs,
/// and it can be started anew.
pub proof fn lemma_start_then_stop(
    controller: VideoControllerModel,
    device: Seq<char>,
    start_replies: Seq<ReplyModel>,
    stop_replies: Seq<ReplyModel>,
)
    requires
        !controller.source_active(),
        !controller.recording_active(),
        all_succeed(controller.start_steps(device), start_replies),
        all_succeed(
            controller.starting(device).after_started(
                controller.start_session(device).run(start_replies),
            ).stop_steps(device),
            stop_replies,
        ),
    ensures
        controller.start_error() is None,
        ({
            let started = controller.start_session(device).run(start_replies);
            let active = controller.starting(device).after_started(started);
            let stopped = active.stop_session(device).run(stop_replies);
            let idle = active.after_stop(device);
            &&& started.outcome() == Some(Ok::<(), PipelineError>(()))
            &&& controller.starting(device).start_verdict(started) is Some
            &&& controller.starting(device).start_verdict(started)->0 is Ok
            &&& active.source.claims(device)
            &&& active.preview_active()
            &&& stopped.outcome() == Some(Ok::<(), PipelineError>(()))
            &&& !idle.source_active()
            &&& !idle.source.claims(device)
            &&& !idle.preview_active()
            &&& !idle.recording_active()
            &&& idle.start_error() is None
        }),
{
    let session = controller.start_session(device);
    let steps = controller.start_steps(device);
    session.lemma_smooth_run(start_replies);
    assert(steps.len() == 10);
    assert(steps[6].command is AwaitCaps);
    assert forall|i: int| 6 < i < start_replies.len() implies !(
    #[trigger] steps[i].command is AwaitCaps) by {
        assert(i == 7 || i == 8 || i == 9);
    }
    session.lemma_smooth_run_caps(start_replies, 6);
    let started = session.run(start_replies);
    let active = controller.starting(device).after_started(started);
    let stop_session = active.stop_session(device);
    stop_session.lemma_smooth_run(stop_replies);
}

/// A start that fails after the source was built gives the device back: it
/// does not end before it has torn down the preview and then the source,
/// and the teardown of the source is the last command it issues.
pub proof fn lemma_failed_start_releases_the_source(
    controller: VideoControllerModel,
    device: Seq<char>,
    built: ReplyModel,
    replies: Seq<ReplyModel>,
)
    requires
        !(built is Failed),
        controller.start_session(device).advance(built).run(replies).finished(),
        controller.start_session(device).advance(built).run(replies).failure is Some,
    ensures
        controller.start_session(device).advance(built).last_issued(replies) == Some(
            StepModel {
                role: Role::Source,
                command: CommandModel::Halt,
                on_failure: Failure::Ignore,
            },
        ),
{
    let after_build = controller.start_session(device).advance(built);
    assert(after_build.steps.len() == 10);
    assert(after_build.rollback.len() == 2);
    assert(after_build.cursor == 1);
    after_build.lemma_ends_with_the_last_command(replies);
}

/// A recording that fails to start after its pipeline was built is torn
/// down: the teardown is the last command that the start issues.
pub proof fn lemma_failed_recording_is_torn_down(
    controller: VideoControllerModel,
    built: ReplyModel,
    replies: Seq<ReplyModel>,
)
    requires
        !(built is Failed),
        controller.recording_session().advance(built).run(replies).finished(),
        controller.recording_session().advance(built).run(replies).failure is Some,
    ensures
        controller.recording_session().advance(built).last_issued(replies) == Some(
            StepModel {
                role: Role::Recording,
                command: CommandModel::Halt,
                on_failure: Failure::Ignore,
            },
        ),
{
    let after_build = controller.recording_session().advance(built);
    assert(after_build.steps.len() == 8);
    assert(after_build.rollback.len() == 1);
    assert(after_build.cursor == 1);
    after_build.lemma_ends_with_the_last_command(replies);
}

/// A recording cannot be started twice: once a start of the recording has
/// succeeded, the next is refused with `AlreadyStarted`, until the recording
/// is stopped.
pub proof fn lemma_second_recording_is_refused(
    controller: VideoControllerModel,
    session: SessionModel,
)
    requires
        controller.recording_error() is None,
        controller.recording().recording_verdict(session) == Some(Ok::<(), PipelineError>(())),
    ensures
        controller.recording().after_recording_started(session).recording_active(),
        controller.recording().after_recording_started(session).recording_error() == Some(
            PipelineError::AlreadyStarted,
        ),
        controller.recording().after_recording_started(
            session,
        ).after_stop_recording().recording_error() is None,
{
}

/// Stopping the source never touches the recording, whether one runs or not:
/// no command of the stop addresses the recording pipeline, and the recorder
/// and its pipeline are as they were. After the stop the device is free, so
/// that the source can be started anew, and a recording that ran can still
/// be stopped.
pub proof fn lemma_stop_leaves_the_recording_alone(
    controller: VideoControllerModel,
    device: Seq<char>,
)
    ensures
        forall|i: int|
            0 <= i < controller.stop_steps(device).len() ==> (
            #[trigger] controller.stop_steps(device)[i]).role != Role::Recording,
        controller.after_stop(device).recorder == controller.recorder,
        controller.after_stop(device).recording_pipeline == controller.recording_pipeline,
        controller.after_stop(device).recording_active() == controller.recording_active(),
        controller.after_stop(device).stop_recording_error()
            == controller.stop_recording_error(),
        controller.source.claims(device) ==> controller.after_stop(device).start_error() is None,
        controller.source.claims(device) ==> !controller.after_stop(device).preview_active(),
{
}

/// As long as the caller stops the recording before the source, a recording
/// runs only while the source is active, whatever else the controller is
/// asked to do.
pub proof fn lemma_recording_needs_source(
    controller: VideoControllerModel,
    device: Seq<char>,
    session: SessionModel,
)
    requires
        controller.wf(),
    ensures
        controller.start_error() is None ==> controller.starting(device).wf(),
        controller.after_started(session).wf(),
        !controller.recording_active() ==> controller.after_stop(device).wf(),
        controller.recording_error() is None ==> controller.recording().wf(),
        controller.after_recording_started(session).wf(),
        controller.after_stop_recording().wf(),
{
}

/// The controller of one device.
#[derive(Debug)]
pub struct VideoControllerImpl {
    recorder: VideoRecorder,
    still: StillRecorderImpl,
    source: VideoSource,
    preview: PreviewImpl,
    recording_pipeline: Option<PipelineHandle>,
    preview_pipeline: Option<PipelineHandle>,
}

impl View for VideoControllerImpl {
    type V = VideoControllerModel;

    closed spec fn view(&self) -> VideoControllerModel {
        VideoControllerModel {
            recorder: self.recorder@,
            still: self.still@,
            source: self.source@,
            preview: self.preview@,
            recording_pipeline: handle_model(self.recording_pipeline),
            preview_pipeline: handle_model(self.preview_pipeline),
        }
    }
}

impl VideoControllerImpl {
    /// A controller of these four services, with nothing running.
    pub fn new(
        source: VideoSource,
        recorder: VideoRecorder,
        still: StillRecorderImpl,
        preview: PreviewImpl,
    ) -> (controller: VideoControllerImpl)
        ensures
            controller@ == (VideoControllerModel {
                recorder: recorder@,
                still: still@,
                source: source@,
                preview: preview@,
                recording_pipeline: None,
                preview_pipeline: None,
            }),
    {
        VideoControllerImpl {
            source,
            recorder,
            still,
            preview,
            recording_pipeline: None,
            preview_pipeline: None,
        }
    }

    /// Whether the source is active.
    pub fn is_source_active(&self) -> (active: bool)
        ensures
            active == self@.source_active(),
    {
        self.source.is_playing()
    }

    /// Whether a recording runs.
    pub fn is_recording(&self) -> (active: bool)
        ensures
            active == self@.recording_active(),
    {
        match current_state_of(&self.recording_pipeline) {
            Some(PipelineState::Playing) => true,
            _ => false,
        }
    }

    /// Whether the preview runs.
    pub fn is_previewing(&self) -> (active: bool)
        ensures
            active == self@.preview_active(),
    {
        match current_state_of(&self.preview_pipeline) {
            Some(PipelineState::Playing) => true,
            _ => false,
        }
    }

    /// Settles `start` once its session has ended: the negotiated stream
    /// properties where it succeeded, the error where it did not. `None`,
    /// and nothing changes, while the session is running or where no start
    /// is under way.
    pub fn started(&mut self, session: &Session) -> (result: Option<
        Result<VideoSourceInfo, PipelineError>,
    >)
        ensures
            final(self)@ == old(self)@.after_started(session@),
            match old(self)@.start_verdict(session@) {
                None => result is None,
                Some(Err(error)) => result == Some(Err::<VideoSourceInfo, PipelineError>(error)),
                Some(Ok(caps)) => {
                    &&& result matches Some(Ok(info))
                    &&& info.device@ == old(self)@.source.device
                    &&& info.width == dimension(caps.width)
                    &&& info.height == dimension(caps.height)
                    &&& info.format@ == caps.format
                },
            },
    {
        let result = self.source.started(session);
        match &result {
            None => {},
            Some(Ok(_)) => {
                advance_from(&mut self.preview_pipeline, PipelineState::Prepared, Signal::Played);
            },
            Some(Err(_)) => {
                self.preview_pipeline = None;
            },
        }
        result
    }

    /// Settles `start_recording` once its session has ended: the prefix of
    /// the chunk files where it succeeded, the error where it did not.
    /// `None`, and nothing changes, while the session is running or where
    /// no start of a recording is under way.
    pub fn recording_started(&mut self, session: &Session) -> (result: Option<
        Result<RecordingInfo, PipelineError>,
    >)
        ensures
            final(self)@ == old(self)@.after_recording_started(session@),
            match old(self)@.recording_verdict(session@) {
                None => result is None,
                Some(Err(error)) => result == Some(Err::<RecordingInfo, PipelineError>(error)),
                Some(Ok(_)) => result matches Some(Ok(info)) && info.prefix@ == old(
                    self,
                )@.recorder.chunk_prefix,
            },
    {
        let waiting = match current_state_of(&self.recording_pipeline) {
            Some(PipelineState::Prepared) => true,
            _ => false,
        };
        if !waiting || !session.is_finished() {
            return None;
        }
        if !self.source.is_playing() {
            let failed = match session.outcome() {
                Some(Err(error)) => error,
                _ => PipelineError::EncodingError,
            };
            match &mut self.recording_pipeline {
                Some(handle) => {
                    handle.apply(Signal::Failed);
                },
                None => {},
            }
            return Some(Err(failed));
        }
        match session.started(&mut self.recording_pipeline) {
            None => None,
            Some(Err(error)) => Some(Err(error)),
            Some(Ok(_)) => Some(Ok(RecordingInfo { prefix: self.recorder.chunk_prefix() })),
        }
    }

    /// Settles `take_still` once its session has ended.
    pub fn still_taken(&self, still_file: &str, session: &Session) -> (result: Option<
        Result<StillInfo, PipelineError>,
    >)
        ensures
            match session@.outcome() {
                None => result is None,
                Some(Err(error)) => result == Some(Err::<StillInfo, PipelineError>(error)),
                Some(Ok(_)) => {
                    &&& result matches Some(Ok(info))
                    &&& info.device@ == self@.still.device
                    &&& info.width == 0
                    &&& info.height == 0
                    &&& info.format@ == Seq::<char>::empty()
                    &&& info.still_file@ == self@.still.still_file(still_file@)
                },
            },
    {
        self.still.finish_still(still_file, session)
    }

    /// Takes one decoded frame of the recording; see
    /// [`VideoRecorder::handle_frame`].
    pub fn handle_frame(&mut self, frame: Vec<u8>, collect: bool) -> (result: Result<
        Option<SpriteBatch>,
        FrameError,
    >)
        ensures
            final(self)@ == (VideoControllerModel {
                recorder: VideoRecorderModel {
                    fh: old(self)@.recorder.fh.after_frame(frame@, collect),
                    ..old(self)@.recorder
                },
                ..old(self)@
            }),
            match result {
                Ok(Some(batch)) => old(self)@.recorder.fh.frame_error(frame@, collect) is None
                    && old(self)@.recorder.fh.frame_batch(frame@, collect) == Some(batch@),
                Ok(None) => old(self)@.recorder.fh.frame_error(frame@, collect) is None && old(
                    self,
                )@.recorder.fh.frame_batch(frame@, collect) is None,
                Err(error) => old(self)@.recorder.fh.frame_error(frame@, collect) == Some(error),
            },
    {
        self.recorder.handle_frame(frame, collect)
    }

    /// Decides what the task that drains the bus of the pipeline of `role`
    /// does after `event`. The bus of the recording is the recorder's
    /// business; see [`VideoRecorder::message_loop`]. On every other bus the
    /// task ends when the stream does and passes everything else over.
    pub fn message_loop(&mut self, role: Role, event: BusEvent) -> (action: BusAction)
        ensures
            action@ == old(self)@.bus_action(role, event@),
            final(self)@ == old(self)@.after_message(role, event@),
    {
        match role {
            Role::Recording => self.recorder.message_loop(event),
            _ => {
                if crate::recorder::videosource::message_loop(&event) {
                    BusAction::Quit(Ok(None))
                } else {
                    BusAction::Continue
                }
            },
        }
    }
}

impl VideoController for VideoControllerImpl {
    fn scan(&self, entries: Vec<String>) -> (result: Result<Vec<String>, PipelineError>)
        ensures
            result matches Ok(devices) && texts(devices@) == candidates(texts(entries@)),
    {
        self.source.scan(entries)
    }

    /// Refuses with `AlreadyStarted`, and changes nothing, while the source
    /// is active. Otherwise the start is under way and its session is
    /// returned.
    fn start(&mut self, device: &str) -> (result: Result<Session, PipelineError>)
        ensures
            match result {
                Ok(session) => {
                    &&& old(self)@.start_error() is None
                    &&& session@ == old(self)@.start_session(device@)
                    &&& final(self)@ == old(self)@.starting(device@)
                },
                Err(error) => {
                    &&& old(self)@.start_error() == Some(error)
                    &&& final(self)@ == old(self)@
                },
            },
    {
        if self.source.is_playing() {
            return Err(PipelineError::AlreadyStarted);
        }
        let descriptor = self.preview.get_pipeline();
        let steps = join_scripts(
            join_scripts(
                self.source.start_steps(device),
                build_script(
                    Role::Preview,
                    descriptor.as_str(),
                    Failure::Unwind(PipelineError::ParseError),
                ),
            ),
            self.preview.start_steps(),
        );
        let rollback = join_scripts(halt_script(Role::Preview), halt_script(Role::Source));
        self.source.begin_start(device);
        let mut handle = PipelineHandle::new(descriptor);
        handle.apply(Signal::Configured);
        self.preview_pipeline = Some(handle);
        Ok(Session::new(steps, rollback))
    }

    /// Never refuses. Where `device` is being captured it is free from now
    /// on, there is no preview any more, and the session returned stops the
    /// preview if it runs, passing its failures over, waits, and stops the
    /// source; the session ends as the teardown of the source does. Where
    /// `device` is not being captured nothing changes and the session has
    /// nothing to do. A recording is never stopped here, whether it runs or
    /// not: stopping it first is the caller's part.
    fn stop(&mut self, device: &str) -> (session: Session)
        ensures
            session@ == old(self)@.stop_session(device@),
            final(self)@ == old(self)@.after_stop(device@),
            final(self)@.recorder == old(self)@.recorder,
            final(self)@.recording_pipeline == old(self)@.recording_pipeline,
    {
        let previewing = self.is_previewing();
        if !self.source.release(device) {
            return Session::new(empty_script(), empty_script());
        }
        self.preview_pipeline = None;
        let first = if previewing {
            PreviewImpl::stop_steps(Failure::Ignore)
        } else {
            empty_script()
        };
        let mut pause: Vec<Step> = Vec::new();
        pause.push(Step::lenient(Role::Source, Command::Pause { millis: GRACE_MS }));
        assert(script_model(pause@) =~= seq![
            StepModel {
                role: Role::Source,
                command: CommandModel::Pause { millis: GRACE_MS },
                on_failure: Failure::Ignore,
            },
        ]);
        let steps = join_scripts(join_scripts(first, pause), VideoSource::stop_steps());
        Session::new(steps, empty_script())
    }

    /// Refuses, and changes nothing, with `EncodingError` while the source
    /// is not active and with `AlreadyStarted` while a recording runs.
    /// Otherwise the thumbnail generator begins anew, the start is under
    /// way, and its session is returned.
    fn start_recording(&mut self) -> (result: Result<Session, PipelineError>)
        ensures
            match result {
                Ok(session) => {
                    &&& old(self)@.recording_error() is None
                    &&& session@ == old(self)@.recording_session()
                    &&& final(self)@ == old(self)@.recording()
                },
                Err(error) => {
                    &&& old(self)@.recording_error() == Some(error)
                    &&& final(self)@ == old(self)@
                },
            },
    {
        if !self.source.is_playing() {
            return Err(PipelineError::EncodingError);
        }
        if self.is_recording() {
            return Err(PipelineError::AlreadyStarted);
        }
        let descriptor = self.recorder.get_pipeline();
        let steps = join_scripts(
            build_script(
                Role::Recording,
                descriptor.as_str(),
                Failure::Abort(PipelineError::ParseError),
            ),
            self.recorder.start_steps(),
        );
        let mut handle = PipelineHandle::new(descriptor);
        handle.apply(Signal::Configured);
        self.recording_pipeline = Some(handle);
        self.recorder.begin();
        Ok(Session::new(steps, halt_script(Role::Recording)))
    }

    /// Refuses with `NotRunning`, and changes nothing, unless a recording
    /// runs. Otherwise no recording runs from now on and the session of the
    /// stop is returned. The source is left alone.
    fn stop_recording(&mut self) -> (result: Result<Session, PipelineError>)
        ensures
            match result {
                Ok(session) => {
                    &&& old(self)@.stop_recording_error() is None
                    &&& session@ == SessionModel::fresh(
                        VideoRecorderModel::stop_steps(),
                        Seq::empty(),
                    )
                    &&& final(self)@ == old(self)@.after_stop_recording()
                },
                Err(error) => {
                    &&& old(self)@.stop_recording_error() == Some(error)
                    &&& final(self)@ == old(self)@
                },
            },
    {
        self.recorder.stop(&mut self.recording_pipeline)
    }

    /// Refuses with `NotRunning` unless `device` is being captured.
    /// Otherwise the session of the capture is returned. The controller
    /// stays as it is either way.
    fn take_still(&self, device: &str, still_file: &str) -> (result: Result<
        Session,
        PipelineError,
    >)
        ensures
            match result {
                Ok(session) => {
                    &&& self@.still_error(device@) is None
                    &&& session@ == self@.still.capture(still_file@)
                },
                Err(error) => self@.still_error(device@) == Some(error),
            },
    {
        if !self.source.claims(device) {
            return Err(PipelineError::NotRunning);
        }
        Ok(self.still.take_still(still_file))
    }
}

} // verus!
