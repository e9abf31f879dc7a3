//! The protocol between the controller and the media pipeline engine.
//!
//! The engine is driven from outside this library: a [`Session`] names the
//! next [`Command`], the caller performs it and reports the engine's
//! [`Reply`], and the session decides what comes next. Every decision is taken
//! here; the caller only executes.

use crate::recorder::common::PipelineError;
use vstd::prelude::*;

verus! {

/// Name of the stage that produces frames.
pub const VIDEO_SOURCE: &'static str = "video-source";

/// Name of the stage that consumes the stream.
pub const VIDEO_SINK: &'static str = "video-sink";

/// Name of the stage that hands decoded frames to the thumbnail generator.
pub const FRAME_SINK: &'static str = "frame-sink";

/// Whether two texts hold the same characters.
pub fn same_text(a: &str, b: &str) -> (same: bool)
    ensures
        same == (a@ == b@),
{
    let left = String::from_str(a);
    let right = String::from_str(b);
    left == right
}

/// The lifecycle of one built pipeline.
#[derive(Clone, Copy, Debug, PartialEq, Eq, Structural)]
pub enum PipelineState {
    /// Parsed from its descriptor, nothing injected yet.
    Idle,
    /// Runtime properties are injected.
    Prepared,
    Playing,
    /// Torn down; a stopped pipeline is never restarted.
    Stopped,
    /// Failed; a failed pipeline stays failed.
    Error,
}

/// What moves a pipeline from one state to the next.
#[derive(Clone, Copy, Debug, PartialEq, Eq, Structural)]
pub enum Signal {
    Configured,
    Played,
    Stopped,
    Failed,
}

impl PipelineState {
    /// Stopped and Error are never left.
    pub open spec fn is_terminal(self) -> bool {
        self == PipelineState::Stopped || self == PipelineState::Error
    }

    /// The state that `signal` leads to, or `None` where the lifecycle has no
    /// such edge.
    pub open spec fn next(self, signal: Signal) -> Option<PipelineState> {
        match (self, signal) {
            (PipelineState::Idle, Signal::Configured) => Some(PipelineState::Prepared),
            (PipelineState::Prepared, Signal::Played) => Some(PipelineState::Playing),
            (PipelineState::Playing, Signal::Stopped) => Some(PipelineState::Stopped),
            (PipelineState::Idle, Signal::Failed) => Some(PipelineState::Error),
            (PipelineState::Prepared, Signal::Failed) => Some(PipelineState::Error),
            (PipelineState::Playing, Signal::Failed) => Some(PipelineState::Error),
            _ => None,
        }
    }

    /// Takes one edge of the lifecycle.
    pub fn step(self, signal: Signal) -> (next: Option<PipelineState>)
        ensures
            next == self.next(signal),
    {
        match (self, signal) {
            (PipelineState::Idle, Signal::Configured) => Some(PipelineState::Prepared),
            (PipelineState::Prepared, Signal::Played) => Some(PipelineState::Playing),
            (PipelineState::Playing, Signal::Stopped) => Some(PipelineState::Stopped),
            (PipelineState::Idle, Signal::Failed) => Some(PipelineState::Error),
            (PipelineState::Prepared, Signal::Failed) => Some(PipelineState::Error),
            (PipelineState::Playing, Signal::Failed) => Some(PipelineState::Error),
            _ => None,
        }
    }

    /// How far along the lifecycle a state is.
    pub open spec fn rank(self) -> nat {
        match self {
            PipelineState::Idle => 0,
            PipelineState::Prepared => 1,
            PipelineState::Playing => 2,
            PipelineState::Stopped => 3,
            PipelineState::Error => 3,
        }
    }
}

/// The state reached from `start` by taking the edges that `signals` name, in
/// order; `None` as soon as one of them is no edge.
pub open spec fn follow(start: PipelineState, signals: Seq<Signal>) -> Option<PipelineState>
    decreases signals.len(),
{
    if signals.len() == 0 {
        Some(start)
    } else {
        match follow(start, signals.drop_last()) {
            Some(state) => state.next(signals.last()),
            None => None,
        }
    }
}

/// A terminal state has no outgoing edge.
pub proof fn lemma_terminal_is_absorbing(state: PipelineState, signal: Signal)
    requires
        state.is_terminal(),
    ensures
        state.next(signal) is None,
{
}

/// Every edge moves strictly forward, so no state is ever entered twice.
pub proof fn lemma_step_moves_forward(state: PipelineState, signal: Signal)
    requires
        state.next(signal) is Some,
    ensures
        state.rank() < state.next(signal)->0.rank(),
{
}

/// A pipeline plays only after it was prepared, and stops only after it
/// played: the only path from Idle to Playing is Configured then Played, and
/// the only path to Stopped adds Stopped.
pub proof fn lemma_no_skipping(signals: Seq<Signal>)
    ensures
        follow(PipelineState::Idle, signals) == Some(PipelineState::Playing) ==> signals
            == seq![Signal::Configured, Signal::Played],
        follow(PipelineState::Idle, signals) == Some(PipelineState::Stopped) ==> signals
            == seq![Signal::Configured, Signal::Played, Signal::Stopped],
        follow(PipelineState::Idle, signals) == Some(PipelineState::Prepared) ==> signals
            == seq![Signal::Configured],
        follow(PipelineState::Idle, signals) == Some(PipelineState::Idle) ==> signals.len() == 0,
    decreases signals.len(),
{
    if signals.len() > 0 {
        let front = signals.drop_last();
        lemma_no_skipping(front);
        assert(signals =~= front.push(signals.last()));
        match follow(PipelineState::Idle, front) {
            Some(state) => {
                if state.next(signals.last()) == Some(PipelineState::Playing) {
                    assert(state == PipelineState::Prepared);
                    assert(signals =~= seq![Signal::Configured, Signal::Played]);
                }
                if state.next(signals.last()) == Some(PipelineState::Stopped) {
                    assert(state == PipelineState::Playing);
                    assert(signals =~= seq![Signal::Configured, Signal::Played, Signal::Stopped]);
                }
                if state.next(signals.last()) == Some(PipelineState::Prepared) {
                    assert(state == PipelineState::Idle);
                    assert(front.len() == 0);
                    assert(signals =~= seq![Signal::Configured]);
                }
            },
            None => {},
        }
    }
}

/// One built pipeline as the controller keeps track of it.
#[derive(Clone, Debug, PartialEq, Eq)]
pub struct PipelineHandle {
    descriptor: String,
    state: PipelineState,
}

/// What a [`PipelineHandle`] holds.
pub struct HandleModel {
    pub descriptor: Seq<char>,
    pub state: PipelineState,
}

impl View for PipelineHandle {
    type V = HandleModel;

    closed spec fn view(&self) -> HandleModel {
        HandleModel { descriptor: self.descriptor@, state: self.state }
    }
}

/// What the place of a pipeline holds: a handle, or nothing.
pub open spec fn handle_model(pipeline: Option<PipelineHandle>) -> Option<HandleModel> {
    match pipeline {
        Some(handle) => Some(handle@),
        None => None,
    }
}

/// The state of the pipeline in a place, if there is one.
pub open spec fn state_of(pipeline: Option<HandleModel>) -> Option<PipelineState> {
    match pipeline {
        Some(handle) => Some(handle.state),
        None => None,
    }
}

/// The state of the pipeline in a place, if there is one.
pub fn current_state_of(pipeline: &Option<PipelineHandle>) -> (state: Option<PipelineState>)
    ensures
        state == state_of(handle_model(*pipeline)),
{
    match pipeline {
        Some(handle) => Some(handle.current_state()),
        None => None,
    }
}

impl PipelineHandle {
    /// A handle for a freshly parsed descriptor.
    pub fn new(descriptor: String) -> (handle: PipelineHandle)
        ensures
            handle@ == (HandleModel { descriptor: descriptor@, state: PipelineState::Idle }),
    {
        PipelineHandle { descriptor, state: PipelineState::Idle }
    }

    pub fn current_state(&self) -> (state: PipelineState)
        ensures
            state == self@.state,
    {
        self.state
    }

    /// The descriptor that the pipeline was built from.
    pub fn descriptor(&self) -> (descriptor: String)
        ensures
            descriptor@ == self@.descriptor,
    {
        self.descriptor.clone()
    }

    /// Takes the edge that `signal` names. Where the lifecycle has no such
    /// edge the handle stays as it is and `false` is returned.
    pub fn apply(&mut self, signal: Signal) -> (moved: bool)
        ensures
            final(self)@.descriptor == old(self)@.descriptor,
            moved == (old(self)@.state.next(signal) is Some),
            moved ==> Some(final(self)@.state) == old(self)@.state.next(signal),
            !moved ==> final(self)@.state == old(self)@.state,
    {
        match self.state.step(signal) {
            Some(next) => {
                self.state = next;
                true
            },
            None => false,
        }
    }
}

/// The place of a pipeline with its handle moved to `state`.
pub open spec fn moved_to(pipeline: Option<HandleModel>, state: PipelineState) -> Option<
    HandleModel,
> {
    match pipeline {
        Some(handle) => Some(HandleModel { state, ..handle }),
        None => None,
    }
}

/// Takes the edge that `signal` names with the pipeline in a place, if the
/// pipeline is in state `from`. Nothing changes, and `false` is returned,
/// where the place is empty, the pipeline is in another state, or the
/// lifecycle has no such edge.
pub fn advance_from(
    pipeline: &mut Option<PipelineHandle>,
    from: PipelineState,
    signal: Signal,
) -> (moved: bool)
    ensures
        moved == (state_of(handle_model(*old(pipeline))) == Some(from) && from.next(signal)
            is Some),
        moved ==> handle_model(*final(pipeline)) == moved_to(
            handle_model(*old(pipeline)),
            from.next(signal)->0,
        ),
        !moved ==> handle_model(*final(pipeline)) == handle_model(*old(pipeline)),
{
    match pipeline {
        Some(handle) => {
            if handle.current_state() == from {
                handle.apply(signal)
            } else {
                false
            }
        },
        None => false,
    }
}

/// The three well-known stages of a descriptor.
#[derive(Clone, Copy, Debug, PartialEq, Eq, Structural)]
pub enum Slot {
    VideoSource,
    VideoSink,
    FrameSink,
}

impl Slot {
    pub open spec fn name_text(self) -> Seq<char> {
        match self {
            Slot::VideoSource => VIDEO_SOURCE@,
            Slot::VideoSink => VIDEO_SINK@,
            Slot::FrameSink => FRAME_SINK@,
        }
    }

    /// The name by which a descriptor marks this stage.
    pub fn name(&self) -> (text: &'static str)
        ensures
            text@ == self.name_text(),
    {
        match self {
            Slot::VideoSource => VIDEO_SOURCE,
            Slot::VideoSink => VIDEO_SINK,
            Slot::FrameSink => FRAME_SINK,
        }
    }
}

/// The runtime properties that are injected into stages.
#[derive(Clone, Copy, Debug, PartialEq, Eq, Structural)]
pub enum Property {
    SocketPath,
    Location,
    TargetDuration,
    MessageForward,
    Device,
}

impl Property {
    pub open spec fn name_text(self) -> Seq<char> {
        match self {
            Property::SocketPath => "socket-path"@,
            Property::Location => "location"@,
            Property::TargetDuration => "target-duration"@,
            Property::MessageForward => "message-forward"@,
            Property::Device => "device"@,
        }
    }

    /// The name under which a stage exposes this property.
    pub fn name(&self) -> (text: &'static str)
        ensures
            text@ == self.name_text(),
    {
        match self {
            Property::SocketPath => "socket-path",
            Property::Location => "location",
            Property::TargetDuration => "target-duration",
            Property::MessageForward => "message-forward",
            Property::Device => "device",
        }
    }
}

/// Which of the controller's pipelines a command addresses.
#[derive(Clone, Copy, Debug, PartialEq, Eq, Structural)]
pub enum Role {
    Source,
    Recording,
    Still,
    Preview,
}

/// A property value.
#[derive(Clone, Debug, PartialEq, Eq)]
pub enum Value {
    Text(String),
    Number(u32),
    Flag(bool),
}

/// What a [`Value`] holds.
pub enum ValueModel {
    Text(Seq<char>),
    Number(u32),
    Flag(bool),
}

impl View for Value {
    type V = ValueModel;

    open spec fn view(&self) -> ValueModel {
        match *self {
            Value::Text(text) => ValueModel::Text(text@),
            Value::Number(number) => ValueModel::Number(number),
            Value::Flag(flag) => ValueModel::Flag(flag),
        }
    }
}

/// One request to the engine.
#[derive(Clone, Debug, PartialEq, Eq)]
pub enum Command {
    /// Build the pipeline from its descriptor. Fails where the descriptor is
    /// malformed.
    Build { descriptor: String },
    /// Set a property of a stage, if the stage exposes it; a stage without
    /// the property is left alone and the command still succeeds.
    Configure { slot: Slot, property: Property, value: Value },
    /// Have the frame sink hand every decoded frame to the thumbnail
    /// generator.
    AttachFrameSink,
    /// Move the pipeline to playing.
    Play,
    /// Wait until the pipeline has left its initial state, looking every
    /// `poll_ms`.
    AwaitRunning { poll_ms: u64 },
    /// Start the task that drains the pipeline's event bus.
    WatchBus,
    /// Wait until the video sink's negotiated capabilities are known,
    /// looking every `poll_ms`, and report them.
    AwaitCaps { poll_ms: u64 },
    /// Read the event bus once, waiting at most `timeout_ms`. The command is
    /// issued again until a message arrives that ends the stream.
    PollBus { timeout_ms: u64 },
    /// Send end-of-stream through the pipeline.
    SendEos,
    /// Wait until the bus task has seen the end of the stream and ended.
    AwaitEos,
    /// Wait.
    Pause { millis: u64 },
    /// Tear the pipeline down.
    Halt,
}

/// What a [`Command`] holds.
pub enum CommandModel {
    Build { descriptor: Seq<char> },
    Configure { slot: Slot, property: Property, value: ValueModel },
    AttachFrameSink,
    Play,
    AwaitRunning { poll_ms: u64 },
    WatchBus,
    AwaitCaps { poll_ms: u64 },
    PollBus { timeout_ms: u64 },
    SendEos,
    AwaitEos,
    Pause { millis: u64 },
    Halt,
}

impl View for Command {
    type V = CommandModel;

    open spec fn view(&self) -> CommandModel {
        match *self {
            Command::Build { descriptor } => CommandModel::Build { descriptor: descriptor@ },
            Command::Configure { slot, property, value } => CommandModel::Configure {
                slot,
                property,
                value: value@,
            },
            Command::AttachFrameSink => CommandModel::AttachFrameSink,
            Command::Play => CommandModel::Play,
            Command::AwaitRunning { poll_ms } => CommandModel::AwaitRunning { poll_ms },
            Command::WatchBus => CommandModel::WatchBus,
            Command::AwaitCaps { poll_ms } => CommandModel::AwaitCaps { poll_ms },
            Command::PollBus { timeout_ms } => CommandModel::PollBus { timeout_ms },
            Command::SendEos => CommandModel::SendEos,
            Command::AwaitEos => CommandModel::AwaitEos,
            Command::Pause { millis } => CommandModel::Pause { millis },
            Command::Halt => CommandModel::Halt,
        }
    }
}

/// What a session does when the engine reports that a command failed.
#[derive(Clone, Copy, Debug, PartialEq, Eq, Structural)]
pub enum Failure {
    /// Go on with the next command.
    Ignore,
    /// End at once with this error.
    Abort(PipelineError),
    /// Run the session's rollback commands, then end with this error.
    Unwind(PipelineError),
}

/// One command of a session, with the pipeline it addresses.
#[derive(Clone, Debug, PartialEq, Eq)]
pub struct Step {
    pub role: Role,
    pub command: Command,
    pub on_failure: Failure,
}

/// What a [`Step`] holds.
pub struct StepModel {
    pub role: Role,
    pub command: CommandModel,
    pub on_failure: Failure,
}

impl View for Step {
    type V = StepModel;

    open spec fn view(&self) -> StepModel {
        StepModel { role: self.role, command: self.command@, on_failure: self.on_failure }
    }
}

impl Step {
    pub fn new(role: Role, command: Command, on_failure: Failure) -> (step: Step)
        ensures
            step@ == (StepModel { role, command: command@, on_failure }),
    {
        Step { role, command, on_failure }
    }

    /// A command whose failure is passed over.
    pub fn lenient(role: Role, command: Command) -> (step: Step)
        ensures
            step@ == (StepModel { role, command: command@, on_failure: Failure::Ignore }),
    {
        Step { role, command, on_failure: Failure::Ignore }
    }

    /// Injects a text property.
    pub fn configure_text(role: Role, slot: Slot, property: Property, text: String) -> (step: Step)
        ensures
            step@ == (StepModel {
                role,
                command: CommandModel::Configure { slot, property, value: ValueModel::Text(text@) },
                on_failure: Failure::Ignore,
            }),
    {
        Step {
            role,
            command: Command::Configure { slot, property, value: Value::Text(text) },
            on_failure: Failure::Ignore,
        }
    }
}

/// What a run of steps holds.
pub open spec fn script_model(steps: Seq<Step>) -> Seq<StepModel> {
    steps.map_values(|step: Step| step@)
}

/// The model of a script grows with the script.
pub proof fn lemma_script_push(steps: Seq<Step>, step: Step)
    ensures
        script_model(steps.push(step)) == script_model(steps).push(step@),
{
    assert(script_model(steps.push(step)) =~= script_model(steps).push(step@));
}

/// The model of two scripts in a row is their models in a row.
pub proof fn lemma_script_concat(first: Seq<Step>, second: Seq<Step>)
    ensures
        script_model(first + second) == script_model(first) + script_model(second),
{
    assert(script_model(first + second) =~= script_model(first) + script_model(second));
}

/// The one command that builds a pipeline from `descriptor`; `on_failure`
/// says what a malformed descriptor leads to.
pub open spec fn build_steps(role: Role, descriptor: Seq<char>, on_failure: Failure) -> Seq<
    StepModel,
> {
    seq![StepModel { role, command: CommandModel::Build { descriptor }, on_failure }]
}

/// The one command that tears a pipeline down after a start that failed.
pub open spec fn halt_steps(role: Role) -> Seq<StepModel> {
    seq![StepModel { role, command: CommandModel::Halt, on_failure: Failure::Ignore }]
}

/// The command that builds a pipeline from `descriptor`.
pub fn build_script(role: Role, descriptor: &str, on_failure: Failure) -> (steps: Vec<Step>)
    ensures
        script_model(steps@) == build_steps(role, descriptor@, on_failure),
{
    let mut steps: Vec<Step> = Vec::new();
    steps.push(
        Step::new(role, Command::Build { descriptor: String::from_str(descriptor) }, on_failure),
    );
    assert(script_model(steps@) =~= build_steps(role, descriptor@, on_failure));
    steps
}

/// Two scripts in a row.
pub fn join_scripts(first: Vec<Step>, second: Vec<Step>) -> (steps: Vec<Step>)
    ensures
        script_model(steps@) == script_model(first@) + script_model(second@),
{
    let mut steps = first;
    let mut rest = second;
    steps.append(&mut rest);
    proof {
        lemma_script_concat(first@, second@);
    }
    steps
}

/// The command that tears a pipeline down.
pub fn halt_script(role: Role) -> (steps: Vec<Step>)
    ensures
        script_model(steps@) == halt_steps(role),
{
    let mut steps: Vec<Step> = Vec::new();
    steps.push(Step::lenient(role, Command::Halt));
    assert(script_model(steps@) =~= halt_steps(role));
    steps
}

/// No commands.
pub fn empty_script() -> (steps: Vec<Step>)
    ensures
        script_model(steps@) == Seq::<StepModel>::empty(),
{
    let steps: Vec<Step> = Vec::new();
    assert(script_model(steps@) =~= Seq::<StepModel>::empty());
    steps
}

/// The stream properties that a sink negotiated.
#[derive(Clone, Debug, PartialEq, Eq)]
pub struct StreamCaps {
    pub format: String,
    pub width: i32,
    pub height: i32,
}

/// What a [`StreamCaps`] holds.
pub struct CapsModel {
    pub format: Seq<char>,
    pub width: i32,
    pub height: i32,
}

impl View for StreamCaps {
    type V = CapsModel;

    open spec fn view(&self) -> CapsModel {
        CapsModel { format: self.format@, width: self.width, height: self.height }
    }
}

/// The fields of a message that announces a completed segment.
#[derive(Clone, Debug, PartialEq, Eq)]
pub struct Segment {
    pub location: String,
    /// Running time at which the segment was completed.
    pub running_time: u64,
    /// Length of the segment in seconds.
    pub duration: u64,
}

/// What a [`Segment`] holds.
pub struct SegmentModel {
    pub location: Seq<char>,
    pub running_time: u64,
    pub duration: u64,
}

impl View for Segment {
    type V = SegmentModel;

    open spec fn view(&self) -> SegmentModel {
        SegmentModel {
            location: self.location@,
            running_time: self.running_time,
            duration: self.duration,
        }
    }
}

/// One message of a pipeline's event bus.
#[derive(Clone, Debug, PartialEq, Eq)]
pub enum BusEvent {
    /// The stream has ended.
    Eos,
    /// A stage reported an error.
    Error,
    /// A stage posted a message of its own: the stage's name, the message's
    /// name, and the segment fields where the message carries all of them.
    Element { source: String, name: String, segment: Option<Segment> },
    Other,
}

/// What a [`BusEvent`] holds.
pub enum BusEventModel {
    Eos,
    Error,
    Element { source: Seq<char>, name: Seq<char>, segment: Option<SegmentModel> },
    Other,
}

impl View for BusEvent {
    type V = BusEventModel;

    open spec fn view(&self) -> BusEventModel {
        match *self {
            BusEvent::Eos => BusEventModel::Eos,
            BusEvent::Error => BusEventModel::Error,
            BusEvent::Element { source, name, segment } => BusEventModel::Element {
                source: source@,
                name: name@,
                segment: match segment {
                    Some(fields) => Some(fields@),
                    None => None,
                },
            },
            BusEvent::Other => BusEventModel::Other,
        }
    }
}

impl BusEventModel {
    /// End-of-stream and errors end whoever drains the bus.
    pub open spec fn ends_stream(self) -> bool {
        self is Eos || self is Error
    }
}

impl BusEvent {
    /// Whether this message ends whoever drains the bus.
    pub fn ends_stream(&self) -> (ends: bool)
        ensures
            ends == self@.ends_stream(),
    {
        match self {
            BusEvent::Eos => true,
            BusEvent::Error => true,
            _ => false,
        }
    }
}

/// What the engine answers to a command.
#[derive(Clone, Debug, PartialEq, Eq)]
pub enum Reply {
    Done,
    Failed,
    /// The answer to [`Command::AwaitCaps`].
    Caps(StreamCaps),
    /// The answer to [`Command::PollBus`] when a message arrived.
    Message(BusEvent),
    /// The answer to [`Command::PollBus`] when none arrived in time.
    Quiet,
}

/// What a [`Reply`] holds.
pub enum ReplyModel {
    Done,
    Failed,
    Caps(CapsModel),
    Message(BusEventModel),
    Quiet,
}

impl View for Reply {
    type V = ReplyModel;

    open spec fn view(&self) -> ReplyModel {
        match *self {
            Reply::Done => ReplyModel::Done,
            Reply::Failed => ReplyModel::Failed,
            Reply::Caps(caps) => ReplyModel::Caps(caps@),
            Reply::Message(event) => ReplyModel::Message(event@),
            Reply::Quiet => ReplyModel::Quiet,
        }
    }
}

} // verus!
