use video_recorder::recorder::common::PipelineError;
use video_recorder::recorder::pipeline::{
    advance_from, build_script, current_state_of, halt_script, join_scripts, same_text, Command,
    Failure, PipelineHandle, PipelineState, Property, Role, Signal, Slot, Step, FRAME_SINK,
    VIDEO_SINK, VIDEO_SOURCE,
};

#[test]
fn a_pipeline_walks_through_its_lifecycle() {
    let mut handle = PipelineHandle::new("videotestsrc ! fakesink".to_string());
    assert_eq!(handle.current_state(), PipelineState::Idle);
    assert!(handle.apply(Signal::Configured));
    assert_eq!(handle.current_state(), PipelineState::Prepared);
    assert!(handle.apply(Signal::Played));
    assert_eq!(handle.current_state(), PipelineState::Playing);
    assert!(handle.apply(Signal::Stopped));
    assert_eq!(handle.current_state(), PipelineState::Stopped);
    assert_eq!(handle.descriptor(), "videotestsrc ! fakesink");
}

#[test]
fn prepared_cannot_be_skipped() {
    let mut handle = PipelineHandle::new("x".to_string());
    assert!(!handle.apply(Signal::Played));
    assert_eq!(handle.current_state(), PipelineState::Idle);
    assert!(!handle.apply(Signal::Stopped));
    assert_eq!(handle.current_state(), PipelineState::Idle);
}

#[test]
fn stopped_and_error_are_never_left() {
    for last in [Signal::Stopped, Signal::Failed] {
        let mut handle = PipelineHandle::new("x".to_string());
        handle.apply(Signal::Configured);
        handle.apply(Signal::Played);
        assert!(handle.apply(last));
        let state = handle.current_state();
        for signal in [Signal::Configured, Signal::Played, Signal::Stopped, Signal::Failed] {
            assert!(!handle.apply(signal));
            assert_eq!(handle.current_state(), state);
        }
    }
}

#[test]
fn every_running_state_can_fail() {
    assert_eq!(PipelineState::Idle.step(Signal::Failed), Some(PipelineState::Error));
    assert_eq!(PipelineState::Prepared.step(Signal::Failed), Some(PipelineState::Error));
    assert_eq!(PipelineState::Playing.step(Signal::Failed), Some(PipelineState::Error));
    assert_eq!(PipelineState::Stopped.step(Signal::Failed), None);
    assert_eq!(PipelineState::Error.step(Signal::Failed), None);
}

#[test]
fn advance_from_moves_only_from_the_named_state() {
    let mut place = Some(PipelineHandle::new("x".to_string()));
    assert!(!advance_from(&mut place, PipelineState::Playing, Signal::Stopped));
    assert_eq!(current_state_of(&place), Some(PipelineState::Idle));
    assert!(advance_from(&mut place, PipelineState::Idle, Signal::Configured));
    assert_eq!(current_state_of(&place), Some(PipelineState::Prepared));
    let mut empty: Option<PipelineHandle> = None;
    assert!(!advance_from(&mut empty, PipelineState::Idle, Signal::Configured));
    assert_eq!(current_state_of(&empty), None);
}

#[test]
fn slots_and_properties_have_their_names() {
    assert_eq!(Slot::VideoSource.name(), "video-source");
    assert_eq!(Slot::VideoSink.name(), "video-sink");
    assert_eq!(Slot::FrameSink.name(), "frame-sink");
    assert_eq!(VIDEO_SOURCE, "video-source");
    assert_eq!(VIDEO_SINK, "video-sink");
    assert_eq!(FRAME_SINK, "frame-sink");
    assert_eq!(Property::SocketPath.name(), "socket-path");
    assert_eq!(Property::Location.name(), "location");
    assert_eq!(Property::TargetDuration.name(), "target-duration");
    assert_eq!(Property::MessageForward.name(), "message-forward");
    assert_eq!(Property::Device.name(), "device");
}

#[test]
fn same_text_compares_characters() {
    assert!(same_text("video-sink", "video-sink"));
    assert!(!same_text("video-sink", "video-source"));
    assert!(!same_text("", "x"));
    assert!(same_text("", ""));
}

#[test]
fn scripts_are_joined_in_order() {
    let build = build_script(Role::Preview, "a ! b", Failure::Abort(PipelineError::ParseError));
    let halt = halt_script(Role::Preview);
    let joined = join_scripts(build, halt);
    assert_eq!(
        joined,
        vec![
            Step::new(
                Role::Preview,
                Command::Build { descriptor: "a ! b".to_string() },
                Failure::Abort(PipelineError::ParseError),
            ),
            Step::lenient(Role::Preview, Command::Halt),
        ]
    );
}

#[test]
fn errors_are_told_apart() {
    let errors = [
        PipelineError::ParseError,
        PipelineError::EncodingError,
        PipelineError::NotRunning,
        PipelineError::AlreadyStarted,
    ];
    for (i, a) in errors.iter().enumerate() {
        for (j, b) in errors.iter().enumerate() {
            assert_eq!(a == b, i == j);
        }
    }
    assert_eq!(format!("{:?}", PipelineError::NotRunning), "NotRunning");
}
