use video_recorder::recorder::common::PipelineError;
use video_recorder::recorder::pipeline::{
    BusEvent, Command, Failure, Property, Reply, Role, Slot, Step, Value,
};
use video_recorder::recorder::session::Session;
use video_recorder::recorder::stillrecorder::{
    StillRecorder, StillRecorderBuilder, StillRecorderImpl, BUS_POLL_MS, SETTLE_MS,
};

fn succeed(session: &mut Session) -> Vec<Command> {
    let mut issued = Vec::new();
    while let Some(step) = session.current() {
        let command = step.command.clone();
        let reply = match command {
            Command::PollBus { .. } => Reply::Message(BusEvent::Eos),
            _ => Reply::Done,
        };
        issued.push(command);
        session.advance(reply);
    }
    issued
}

fn still_recorder() -> StillRecorderImpl {
    StillRecorderBuilder::new()
        .with_device("video0")
        .with_pipeline_str("videotestsrc name=video-source ! videoconvert ! jpegenc snapshot=true ! filesink name=video-sink")
        .with_still_file_prefix("still")
        .with_socket_path("/tmp/video.sock")
        .with_output_dir("/tmp")
        .build()
}

#[test]
fn stillrecorder_test_take_still() {
    let still_recorder = StillRecorderBuilder::new()
        .with_device("video0")
        .with_pipeline_str("videotestsrc name=video-source ! videoconvert ! jpegenc snapshot=true ! filesink name=video-sink")
        .with_still_file_prefix("still")
        .with_socket_path("/tmp/video.sock")
        .with_output_dir("/tmp")
        .build();
    let mut session = still_recorder.take_still("dummy");
    succeed(&mut session);
    let still_info = still_recorder.finish_still("dummy", &session).unwrap().unwrap();
    assert_eq!(still_info.device, "video0");
    assert_eq!(still_info.still_file, "/tmp/still-dummy.jpg");
}

#[test]
fn a_still_is_named_after_prefix_and_name() {
    let recorder = still_recorder();
    assert_eq!(recorder.still_file("t1"), "/tmp/still-t1.jpg");
    assert!(recorder.still_file("t1").ends_with("-t1.jpg"));
    assert_eq!(recorder.still_file(""), "/tmp/still-.jpg");
    assert_eq!(StillRecorderBuilder::new().build().still_file("20240101-120000"), ".//still-20240101-120000.jpg");
    assert_eq!(recorder.device(), "video0");
}

#[test]
fn a_capture_builds_plays_polls_and_tears_down() {
    let recorder = still_recorder();
    let mut session = recorder.take_still("t1");
    let expected = vec![
        Step::new(
            Role::Still,
            Command::Build {
                descriptor: "videotestsrc name=video-source ! videoconvert ! jpegenc snapshot=true ! filesink name=video-sink".to_string(),
            },
            Failure::Abort(PipelineError::ParseError),
        ),
        Step::lenient(
            Role::Still,
            Command::Configure {
                slot: Slot::VideoSource,
                property: Property::SocketPath,
                value: Value::Text("/tmp/video.sock".to_string()),
            },
        ),
        Step::lenient(
            Role::Still,
            Command::Configure {
                slot: Slot::VideoSink,
                property: Property::Location,
                value: Value::Text("/tmp/still-t1.jpg".to_string()),
            },
        ),
        Step::new(Role::Still, Command::Play, Failure::Unwind(PipelineError::EncodingError)),
        Step::lenient(Role::Still, Command::PollBus { timeout_ms: BUS_POLL_MS }),
        Step::lenient(Role::Still, Command::Pause { millis: SETTLE_MS }),
        Step::lenient(Role::Still, Command::Halt),
    ];
    for step in &expected {
        assert_eq!(session.current(), Some(step));
        assert_eq!(recorder.finish_still("t1", &session), None);
        let reply = match step.command {
            Command::PollBus { .. } => Reply::Message(BusEvent::Eos),
            _ => Reply::Done,
        };
        session.advance(reply);
    }
    let info = recorder.finish_still("t1", &session).unwrap().unwrap();
    assert!(info.still_file.ends_with("-t1.jpg"));
    assert_eq!(info.width, 0);
    assert_eq!(info.height, 0);
    assert_eq!(info.format, "");
}

#[test]
fn a_capture_ends_on_an_error_message_too() {
    let recorder = still_recorder();
    let mut session = recorder.take_still("t1");
    for _ in 0..4 {
        session.advance(Reply::Done);
    }
    session.advance(Reply::Message(BusEvent::Other));
    assert!(matches!(session.current().unwrap().command, Command::PollBus { .. }));
    session.advance(Reply::Quiet);
    assert!(matches!(session.current().unwrap().command, Command::PollBus { .. }));
    session.advance(Reply::Message(BusEvent::Error));
    assert_eq!(session.current().unwrap().command, Command::Pause { millis: 1000 });
    session.advance(Reply::Done);
    assert_eq!(session.current().unwrap().command, Command::Halt);
    session.advance(Reply::Failed);
    assert!(recorder.finish_still("t1", &session).unwrap().is_ok());
}

#[test]
fn a_malformed_descriptor_is_a_parse_error() {
    let recorder = still_recorder();
    let mut session = recorder.take_still("t1");
    session.advance(Reply::Failed);
    assert_eq!(recorder.finish_still("t1", &session), Some(Err(PipelineError::ParseError)));
}

#[test]
fn a_pipeline_that_does_not_play_is_torn_down() {
    let recorder = still_recorder();
    let mut session = recorder.take_still("t1");
    session.advance(Reply::Done);
    session.advance(Reply::Done);
    session.advance(Reply::Done);
    session.advance(Reply::Failed);
    assert_eq!(session.current(), Some(&Step::lenient(Role::Still, Command::Halt)));
    session.advance(Reply::Done);
    assert_eq!(recorder.finish_still("t1", &session), Some(Err(PipelineError::EncodingError)));
}
