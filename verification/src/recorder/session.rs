//! Sessions: one operation of the controller as a run of engine commands.
//!
//! A session holds the commands of an operation and the commands that undo a
//! half-done operation. The caller asks for the current command, performs it,
//! and hands the engine's reply to [`Session::advance`], until the session is
//! finished.

use crate::recorder::common::PipelineError;
use crate::recorder::pipeline::{
    CapsModel, Command, CommandModel, Failure, HandleModel, PipelineHandle, PipelineState, Reply,
    ReplyModel, Signal, Step, StepModel, StreamCaps, handle_model, script_model,
};
use vstd::prelude::*;

verus! {

/// What a [`Session`] holds.
pub struct SessionModel {
    /// The commands of the operation.
    pub steps: Seq<StepModel>,
    /// The commands that undo a half-done operation.
    pub rollback: Seq<StepModel>,
    /// How many commands of the current lane are behind.
    pub cursor: nat,
    /// The error that the session ends with, once one is known. A session
    /// that has failed walks through `rollback`, no longer through `steps`.
    pub failure: Option<PipelineError>,
    /// The capabilities that the engine reported.
    pub caps: Option<CapsModel>,
}

impl SessionModel {
    /// A session that has not begun.
    pub open spec fn fresh(steps: Seq<StepModel>, rollback: Seq<StepModel>) -> SessionModel {
        SessionModel { steps, rollback, cursor: 0, failure: None, caps: None }
    }

    /// Whether the session has left `steps` for `rollback`.
    pub open spec fn unwinding(self) -> bool {
        self.failure is Some
    }

    /// The commands that the session is walking through.
    pub open spec fn lane(self) -> Seq<StepModel> {
        if self.unwinding() {
            self.rollback
        } else {
            self.steps
        }
    }

    pub open spec fn wf(self) -> bool {
        self.cursor <= self.lane().len()
    }

    pub open spec fn finished(self) -> bool {
        self.cursor >= self.lane().len()
    }

    /// The command to perform next.
    pub open spec fn current(self) -> Option<StepModel> {
        if self.finished() {
            None
        } else {
            Some(self.lane()[self.cursor as int])
        }
    }

    /// How the operation ended, once it is finished.
    pub open spec fn outcome(self) -> Option<Result<(), PipelineError>> {
        if !self.finished() {
            None
        } else {
            match self.failure {
                Some(error) => Some(Err(error)),
                None => Some(Ok(())),
            }
        }
    }

    /// Whether `reply` makes a session repeat `step`: a bus poll is repeated
    /// until a message arrives that ends the stream, however often the bus
    /// stays quiet in between.
    pub open spec fn repeats(step: StepModel, reply: ReplyModel) -> bool {
        &&& step.command is PollBus
        &&& !(reply is Failed)
        &&& !(reply matches ReplyModel::Message(event) && event.ends_stream())
    }

    /// The session after the engine's reply to the current command.
    pub open spec fn advance(self, reply: ReplyModel) -> SessionModel {
        if self.finished() {
            self
        } else {
            let step = self.lane()[self.cursor as int];
            if reply is Failed {
                if self.unwinding() {
                    SessionModel { cursor: self.cursor + 1, ..self }
                } else {
                    match step.on_failure {
                        Failure::Ignore => SessionModel { cursor: self.cursor + 1, ..self },
                        Failure::Abort(error) => SessionModel {
                            cursor: self.rollback.len(),
                            failure: Some(error),
                            ..self
                        },
                        Failure::Unwind(error) => SessionModel {
                            cursor: 0,
                            failure: Some(error),
                            ..self
                        },
                    }
                }
            } else if Self::repeats(step, reply) {
                self
            } else if step.command is AwaitCaps && reply is Caps {
                SessionModel { cursor: self.cursor + 1, caps: Some(reply->Caps_0), ..self }
            } else {
                SessionModel { cursor: self.cursor + 1, ..self }
            }
        }
    }

    /// The session after a run of replies.
    pub open spec fn run(self, replies: Seq<ReplyModel>) -> SessionModel
        decreases replies.len(),
    {
        if replies.len() == 0 {
            self
        } else {
            self.run(replies.drop_last()).advance(replies.last())
        }
    }

    /// The command that was issued last while `replies` came in: the one that
    /// the last reply answered, unless the session had ended before.
    pub open spec fn last_issued(self, replies: Seq<ReplyModel>) -> Option<StepModel>
        decreases replies.len(),
    {
        if replies.len() == 0 {
            None
        } else {
            match self.run(replies.drop_last()).current() {
                Some(step) => Some(step),
                None => self.last_issued(replies.drop_last()),
            }
        }
    }

    /// Whether `issued` is the command just before the cursor of `lane`, or
    /// the command at the cursor, which is then being repeated.
    pub open spec fn at_cursor(lane: Seq<StepModel>, cursor: nat, issued: Option<StepModel>) -> bool {
        ||| (0 < cursor <= lane.len() && issued == Some(lane[cursor - 1]))
        ||| (cursor < lane.len() && issued == Some(lane[cursor as int]))
    }

    /// Whether `reply` is the success that `step` waits for.
    pub open spec fn succeeds(step: StepModel, reply: ReplyModel) -> bool {
        match step.command {
            CommandModel::AwaitCaps { .. } => reply is Caps,
            CommandModel::PollBus { .. } => reply matches ReplyModel::Message(event)
                && event.ends_stream(),
            _ => reply is Done,
        }
    }

    /// The commands issued so far and still to come are those of the two
    /// scripts: no reply changes a script.
    pub proof fn lemma_advance_keeps_scripts(self, reply: ReplyModel)
        requires
            self.wf(),
        ensures
            self.advance(reply).wf(),
            self.advance(reply).steps == self.steps,
            self.advance(reply).rollback == self.rollback,
            self.failure is Some ==> self.advance(reply).failure == self.failure,
    {
    }

    /// A finished session stays as it is, whatever is reported to it.
    pub proof fn lemma_finished_is_final(self, reply: ReplyModel)
        requires
            self.finished(),
        ensures
            self.advance(reply) == self,
    {
    }

    /// Where every command succeeds, a fresh session issues exactly its
    /// steps, in order, never touches the rollback, and ends with success.
    pub proof fn lemma_smooth_run(self, replies: Seq<ReplyModel>)
        requires
            self == Self::fresh(self.steps, self.rollback),
            replies.len() <= self.steps.len(),
            forall|i: int|
                0 <= i < replies.len() ==> Self::succeeds(self.steps[i], #[trigger] replies[i]),
        ensures
            self.run(replies).cursor == replies.len(),
            self.run(replies).failure is None,
            self.run(replies).steps == self.steps,
            self.run(replies).rollback == self.rollback,
            replies.len() < self.steps.len() ==> self.run(replies).current() == Some(
                self.steps[replies.len() as int],
            ),
            replies.len() == self.steps.len() ==> self.run(replies).outcome() == Some(
                Ok::<(), PipelineError>(()),
            ),
        decreases replies.len(),
    {
        if replies.len() > 0 {
            let front = replies.drop_last();
            assert forall|i: int| 0 <= i < front.len() implies Self::succeeds(
                self.steps[i],
                #[trigger] front[i],
            ) by {
                assert(front[i] == replies[i]);
            }
            self.lemma_smooth_run(front);
            assert(Self::succeeds(self.steps[front.len() as int], replies[front.len() as int]));
        }
    }

    /// The capabilities that a smooth run ends with are those that the
    /// engine reported to the last capability wait.
    pub proof fn lemma_smooth_run_caps(self, replies: Seq<ReplyModel>, at: int)
        requires
            self == Self::fresh(self.steps, self.rollback),
            replies.len() <= self.steps.len(),
            forall|i: int|
                0 <= i < replies.len() ==> Self::succeeds(self.steps[i], #[trigger] replies[i]),
            0 <= at < replies.len(),
            self.steps[at].command is AwaitCaps,
            forall|i: int| at < i < replies.len() ==> !(#[trigger] self.steps[i].command is AwaitCaps),
        ensures
            replies[at] is Caps,
            self.run(replies).caps == Some(replies[at]->Caps_0),
        decreases replies.len(),
    {
        let front = replies.drop_last();
        assert forall|i: int| 0 <= i < front.len() implies Self::succeeds(
            self.steps[i],
            #[trigger] front[i],
        ) by {
            assert(front[i] == replies[i]);
        }
        self.lemma_smooth_run(front);
        assert(Self::succeeds(self.steps[at], replies[at]));
        let last = front.len() as int;
        assert(Self::succeeds(self.steps[last], replies[last]));
        if at < last {
            self.lemma_smooth_run_caps(front, at);
            assert(front[at] == replies[at]);
            assert(!(self.steps[last].command is AwaitCaps));
        }
    }

    /// A session walks through its commands one by one: while nothing has
    /// failed, the command issued last is the one before the cursor of the
    /// steps, or the one at the cursor while it is repeated; once a failure
    /// has turned the session to its rollback, the same holds of the
    /// rollback. This is so from any state on from which no failure ends
    /// the session at once.
    pub proof fn lemma_last_issued(self, replies: Seq<ReplyModel>)
        requires
            self.wf(),
            self.failure is None,
            forall|i: int|
                self.cursor <= i < self.steps.len() ==> !(
                #[trigger] self.steps[i].on_failure is Abort),
        ensures
            self.run(replies).wf(),
            self.run(replies).steps == self.steps,
            self.run(replies).rollback == self.rollback,
            self.run(replies).failure is None ==> self.run(replies).cursor >= self.cursor,
            self.run(replies).failure is None && self.run(replies).cursor > self.cursor
                ==> Self::at_cursor(
                self.steps,
                self.run(replies).cursor,
                self.last_issued(replies),
            ),
            self.run(replies).failure is Some && self.run(replies).cursor > 0 ==> Self::at_cursor(
                self.rollback,
                self.run(replies).cursor,
                self.last_issued(replies),
            ),
        decreases replies.len(),
    {
        if replies.len() > 0 {
            let front = replies.drop_last();
            self.lemma_last_issued(front);
            let before = self.run(front);
            before.lemma_advance_keeps_scripts(replies.last());
            if before.failure is None && !before.finished() {
                assert(!(before.steps[before.cursor as int].on_failure is Abort));
            }
        }
    }

    /// A session that has ended, and of which no failure made an end at
    /// once, has issued the last command of its steps last if nothing
    /// failed, and the last command of its rollback if something did.
    pub proof fn lemma_ends_with_the_last_command(self, replies: Seq<ReplyModel>)
        requires
            self.wf(),
            self.failure is None,
            !self.finished(),
            self.rollback.len() > 0,
            forall|i: int|
                self.cursor <= i < self.steps.len() ==> !(
                #[trigger] self.steps[i].on_failure is Abort),
            self.run(replies).finished(),
        ensures
            self.run(replies).failure is None ==> self.last_issued(replies) == Some(
                self.steps.last(),
            ),
            self.run(replies).failure is Some ==> self.last_issued(replies) == Some(
                self.rollback.last(),
            ),
    {
        self.lemma_last_issued(replies);
    }

    /// A failure that aborts ends the session at once, with that error, and
    /// nothing more is issued.
    pub proof fn lemma_abort_ends(self, error: PipelineError)
        requires
            self.wf(),
            !self.unwinding(),
            self.current() matches Some(step) && step.on_failure == Failure::Abort(error),
        ensures
            self.advance(ReplyModel::Failed).current() is None,
            self.advance(ReplyModel::Failed).outcome() == Some(Err::<(), PipelineError>(error)),
    {
    }

    /// A failure that unwinds turns the session to its rollback, whose
    /// commands are then issued from the first on; the error is kept.
    pub proof fn lemma_unwind_starts_rollback(self, error: PipelineError)
        requires
            self.wf(),
            !self.unwinding(),
            self.current() matches Some(step) && step.on_failure == Failure::Unwind(error),
        ensures
            self.advance(ReplyModel::Failed).cursor == 0,
            self.advance(ReplyModel::Failed).failure == Some(error),
            self.rollback.len() > 0 ==> self.advance(ReplyModel::Failed).current() == Some(
                self.rollback[0],
            ),
            self.rollback.len() == 0 ==> self.advance(ReplyModel::Failed).outcome() == Some(
                Err::<(), PipelineError>(error),
            ),
    {
    }

    /// Once a session has failed it ends with that failure, whatever the
    /// engine reports afterwards: a rollback is best effort.
    pub proof fn lemma_failure_is_kept(self, replies: Seq<ReplyModel>)
        requires
            self.wf(),
            self.failure is Some,
        ensures
            self.run(replies).wf(),
            self.run(replies).failure == self.failure,
            self.run(replies).steps == self.steps,
            self.run(replies).rollback == self.rollback,
        decreases replies.len(),
    {
        if replies.len() > 0 {
            self.lemma_failure_is_kept(replies.drop_last());
            self.run(replies.drop_last()).lemma_advance_keeps_scripts(replies.last());
        }
    }
}

/// How the start of a pipeline ended, as far as `session` tells: its outcome
/// where the pipeline is prepared and waiting for it, nothing otherwise.
pub open spec fn start_verdict(pipeline: Option<HandleModel>, session: SessionModel) -> Option<
    Result<(), PipelineError>,
> {
    if pipeline matches Some(handle) && handle.state == PipelineState::Prepared {
        session.outcome()
    } else {
        None
    }
}

/// The pipeline after its start was settled: playing where the start
/// succeeded, failed where it did not, untouched where nothing was settled.
pub open spec fn after_start(pipeline: Option<HandleModel>, session: SessionModel) -> Option<
    HandleModel,
> {
    match start_verdict(pipeline, session) {
        None => pipeline,
        Some(Ok(_)) => Some(HandleModel { state: PipelineState::Playing, ..pipeline->0 }),
        Some(Err(_)) => Some(HandleModel { state: PipelineState::Error, ..pipeline->0 }),
    }
}

/// One operation of the controller, as the caller drives it.
#[derive(Debug)]
pub struct Session {
    steps: Vec<Step>,
    rollback: Vec<Step>,
    cursor: usize,
    failure: Option<PipelineError>,
    caps: Option<StreamCaps>,
}

impl View for Session {
    type V = SessionModel;

    closed spec fn view(&self) -> SessionModel {
        SessionModel {
            steps: script_model(self.steps@),
            rollback: script_model(self.rollback@),
            cursor: self.cursor as nat,
            failure: self.failure,
            caps: match self.caps {
                Some(caps) => Some(caps@),
                None => None,
            },
        }
    }
}

impl Session {
    #[verifier::type_invariant]
    spec fn well_formed(self) -> bool {
        self.cursor <= (if self.failure is Some {
            self.rollback.len()
        } else {
            self.steps.len()
        })
    }

    /// A session that will issue `steps`, and `rollback` if a step fails that
    /// asks for it.
    pub fn new(steps: Vec<Step>, rollback: Vec<Step>) -> (session: Session)
        ensures
            session@ == SessionModel::fresh(script_model(steps@), script_model(rollback@)),
            session@.wf(),
    {
        Session { steps, rollback, cursor: 0, failure: None, caps: None }
    }

    /// A session that has nothing to do and has ended with success.
    pub fn idle() -> (session: Session)
        ensures
            session@ == SessionModel::fresh(Seq::empty(), Seq::empty()),
            session@.outcome() == Some(Ok::<(), PipelineError>(())),
    {
        let session = Session {
            steps: Vec::new(),
            rollback: Vec::new(),
            cursor: 0,
            failure: None,
            caps: None,
        };
        assert(script_model(session.steps@) =~= Seq::empty());
        assert(script_model(session.rollback@) =~= Seq::empty());
        session
    }

    /// The command to perform next; `None` once the session is finished.
    pub fn current(&self) -> (step: Option<&Step>)
        ensures
            self@.wf(),
            match step {
                Some(step) => self@.current() == Some(step@),
                None => self@.current() is None,
            },
    {
        proof {
            use_type_invariant(self);
        }
        if self.failure.is_some() {
            if self.cursor < self.rollback.len() {
                Some(&self.rollback[self.cursor])
            } else {
                None
            }
        } else {
            if self.cursor < self.steps.len() {
                Some(&self.steps[self.cursor])
            } else {
                None
            }
        }
    }

    pub fn is_finished(&self) -> (finished: bool)
        ensures
            finished == self@.finished(),
    {
        proof {
            use_type_invariant(self);
        }
        if self.failure.is_some() {
            self.cursor >= self.rollback.len()
        } else {
            self.cursor >= self.steps.len()
        }
    }

    /// How the operation ended; `None` while it is still running.
    pub fn outcome(&self) -> (outcome: Option<Result<(), PipelineError>>)
        ensures
            outcome == self@.outcome(),
    {
        if !self.is_finished() {
            None
        } else {
            match self.failure {
                Some(error) => Some(Err(error)),
                None => Some(Ok(())),
            }
        }
    }

    /// The capabilities that the engine reported, if it has.
    pub fn caps(&self) -> (caps: Option<&StreamCaps>)
        ensures
            match caps {
                Some(caps) => self@.caps == Some(caps@),
                None => self@.caps is None,
            },
    {
        self.caps.as_ref()
    }

    /// Settles the preparation of a pipeline once its session has ended: a
    /// handle for `descriptor` where the engine built the pipeline, the
    /// session's error where it did not. `None` while the session is running.
    pub fn prepared(&self, descriptor: &str) -> (result: Option<
        Result<PipelineHandle, PipelineError>,
    >)
        ensures
            match self@.outcome() {
                None => result is None,
                Some(Err(error)) => result == Some(Err::<PipelineHandle, PipelineError>(error)),
                Some(Ok(_)) => result matches Some(Ok(handle)) && handle@ == (HandleModel {
                    descriptor: descriptor@,
                    state: PipelineState::Idle,
                }),
            },
    {
        match self.outcome() {
            None => None,
            Some(Err(error)) => Some(Err(error)),
            Some(Ok(_)) => Some(Ok(PipelineHandle::new(String::from_str(descriptor)))),
        }
    }

    /// Settles the start of a pipeline once its session has ended: the
    /// pipeline is playing where the start succeeded and failed where it did
    /// not. `None`, and nothing changes, while the session is running or
    /// where the pipeline is not waiting for a start.
    pub fn started(&self, pipeline: &mut Option<PipelineHandle>) -> (result: Option<
        Result<(), PipelineError>,
    >)
        ensures
            result == start_verdict(handle_model(*old(pipeline)), self@),
            handle_model(*final(pipeline)) == after_start(handle_model(*old(pipeline)), self@),
    {
        let outcome = self.outcome();
        match pipeline {
            Some(handle) => {
                if handle.current_state() == PipelineState::Prepared {
                    match outcome {
                        None => None,
                        Some(Ok(_)) => {
                            handle.apply(Signal::Played);
                            Some(Ok(()))
                        },
                        Some(Err(error)) => {
                            handle.apply(Signal::Failed);
                            Some(Err(error))
                        },
                    }
                } else {
                    None
                }
            },
            None => None,
        }
    }

    /// Takes the engine's reply to the current command and moves on.
    pub fn advance(&mut self, reply: Reply)
        ensures
            final(self)@ == old(self)@.advance(reply@),
            final(self)@.wf(),
    {
        proof {
            use_type_invariant(&*self);
        }
        if self.is_finished() {
            return ;
        }
        let (on_failure, polls, awaits_caps) = if self.failure.is_some() {
            let step = &self.rollback[self.cursor];
            (
                step.on_failure,
                matches!(step.command, Command::PollBus { .. }),
                matches!(step.command, Command::AwaitCaps { .. }),
            )
        } else {
            let step = &self.steps[self.cursor];
            (
                step.on_failure,
                matches!(step.command, Command::PollBus { .. }),
                matches!(step.command, Command::AwaitCaps { .. }),
            )
        };
        match reply {
            Reply::Failed => {
                if self.failure.is_some() {
                    self.cursor = self.cursor + 1;
                } else {
                    match on_failure {
                        Failure::Ignore => {
                            self.cursor = self.cursor + 1;
                        },
                        Failure::Abort(error) => {
                            self.cursor = 0;
                            self.failure = Some(error);
                            self.cursor = self.rollback.len();
                        },
                        Failure::Unwind(error) => {
                            self.cursor = 0;
                            self.failure = Some(error);
                        },
                    }
                }
            },
            Reply::Message(event) => {
                if !polls || event.ends_stream() {
                    self.cursor = self.cursor + 1;
                }
            },
            Reply::Caps(caps) => {
                if !polls {
                    if awaits_caps {
                        self.caps = Some(caps);
                    }
                    self.cursor = self.cursor + 1;
                }
            },
            _ => {
                if !polls {
                    self.cursor = self.cursor + 1;
                }
            },
        }
    }
}

} // verus!
