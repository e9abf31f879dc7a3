use video_recorder::recorder::common::PipelineError;
use video_recorder::recorder::pipeline::{
    BusEvent, Command, Failure, Property, Reply, Role, Slot, Step, StreamCaps, Value,
};
use video_recorder::recorder::session::Session;
use video_recorder::recorder::videosource::{
    message_loop, starts_with, Source, VideoSource, VideoSourceBuilder,
};

fn caps(width: i32, height: i32) -> StreamCaps {
    StreamCaps { format: "YUY2".to_string(), width, height }
}

fn succeed(session: &mut Session) -> Vec<Command> {
    let mut issued = Vec::new();
    while let Some(step) = session.current() {
        let command = step.command.clone();
        let reply = match command {
            Command::AwaitCaps { .. } => Reply::Caps(caps(640, 480)),
            Command::PollBus { .. } => Reply::Message(BusEvent::Eos),
            _ => Reply::Done,
        };
        issued.push(command);
        session.advance(reply);
    }
    issued
}

fn test_source() -> VideoSource {
    VideoSourceBuilder::new()
        .with_fd_dir("/tmp")
        .with_pipeline("videotestsrc name=video-source ! unixfdsink name=video-sink")
        .build()
}

#[test]
fn videosource_build_test() {
    let mut source = VideoSourceBuilder::new()
        .with_pipeline(
            format!("videotestsrc name={} ! unixfdsink name={}", "video-source", "video-sink")
                .as_str(),
        )
        .build();
    let res = source.start("video0");
    assert_eq!(res.is_ok(), true);
    let mut session = res.unwrap();
    succeed(&mut session);
    let res = source.started(&session).unwrap();
    assert_eq!(res.is_ok(), true);
    let mut session = source.stop("video0");
    succeed(&mut session);
    let res = session.outcome().unwrap();
    assert_eq!(res.is_ok(), true);
}

#[test]
fn start_issues_the_capture_commands() {
    let mut source = test_source();
    let session = source.start("video0").unwrap();
    let mut expected = Session::new(
        vec![
            Step::new(
                Role::Source,
                Command::Build {
                    descriptor: "videotestsrc name=video-source ! unixfdsink name=video-sink"
                        .to_string(),
                },
                Failure::Abort(PipelineError::ParseError),
            ),
            Step::lenient(
                Role::Source,
                Command::Configure {
                    slot: Slot::VideoSink,
                    property: Property::SocketPath,
                    value: Value::Text("/tmp/video0.sock".to_string()),
                },
            ),
            Step::lenient(
                Role::Source,
                Command::Configure {
                    slot: Slot::VideoSource,
                    property: Property::Device,
                    value: Value::Text("/dev/video0".to_string()),
                },
            ),
            Step::new(Role::Source, Command::Play, Failure::Unwind(PipelineError::EncodingError)),
            Step::new(
                Role::Source,
                Command::AwaitRunning { poll_ms: 100 },
                Failure::Unwind(PipelineError::EncodingError),
            ),
            Step::lenient(Role::Source, Command::WatchBus),
            Step::new(
                Role::Source,
                Command::AwaitCaps { poll_ms: 100 },
                Failure::Unwind(PipelineError::EncodingError),
            ),
        ],
        vec![Step::lenient(Role::Source, Command::Halt)],
    );
    let mut session = session;
    loop {
        assert_eq!(session.current(), expected.current());
        if session.is_finished() {
            break;
        }
        session.advance(Reply::Done);
        expected.advance(Reply::Done);
    }
}

#[test]
fn the_socket_lies_in_the_socket_directory() {
    let source = test_source();
    assert_eq!(source.socket_path("video0"), "/tmp/video0.sock");
    assert_eq!(source.socket_path("video12"), "/tmp/video12.sock");
    assert_eq!(VideoSourceBuilder::new().build().socket_path("video0"), "/dev/video0.sock");
    assert_eq!(VideoSource::device_path("video3"), "/dev/video3");
}

#[test]
fn a_started_source_reports_the_negotiated_properties() {
    let mut source = test_source();
    let mut session = source.start("video0").unwrap();
    assert_eq!(source.started(&session), None);
    succeed(&mut session);
    let info = source.started(&session).unwrap().unwrap();
    assert_eq!(info.device, "video0");
    assert_eq!(info.width, 640);
    assert_eq!(info.height, 480);
    assert_eq!(info.format, "YUY2");
    assert!(source.is_playing());
    assert!(source.claims("video0"));
    assert!(!source.claims("video1"));
    assert_eq!(source.started(&session), None);
}

#[test]
fn negative_dimensions_count_as_zero() {
    let source = test_source();
    let info = source.get_video_info(&caps(-1, i32::MIN)).unwrap();
    assert_eq!(info.width, 0);
    assert_eq!(info.height, 0);
    let info = source.get_video_info(&caps(i32::MAX, 0)).unwrap();
    assert_eq!(info.width, i32::MAX as u32);
    assert_eq!(info.height, 0);
    assert_eq!(info.format, "YUY2");
}

#[test]
fn a_source_is_started_only_once() {
    let mut source = test_source();
    let mut session = source.start("video0").unwrap();
    succeed(&mut session);
    source.started(&session).unwrap().unwrap();
    assert_eq!(source.start("video0").err(), Some(PipelineError::AlreadyStarted));
    assert_eq!(source.start("video1").err(), Some(PipelineError::AlreadyStarted));
    assert!(source.claims("video0"));
}

#[test]
fn a_malformed_descriptor_fails_the_start_with_a_parse_error() {
    let mut source = test_source();
    let mut session = source.start("video0").unwrap();
    session.advance(Reply::Failed);
    assert!(session.is_finished());
    assert_eq!(source.started(&session), Some(Err(PipelineError::ParseError)));
    assert!(!source.claims("video0"));
    assert!(!source.is_playing());
    assert!(source.start("video0").is_ok());
}

#[test]
fn a_failed_transition_unwinds_and_leaves_the_device_unclaimed() {
    let mut source = test_source();
    let mut session = source.start("video0").unwrap();
    session.advance(Reply::Done);
    session.advance(Reply::Done);
    session.advance(Reply::Done);
    session.advance(Reply::Failed);
    assert_eq!(session.current(), Some(&Step::lenient(Role::Source, Command::Halt)));
    session.advance(Reply::Done);
    assert_eq!(source.started(&session), Some(Err(PipelineError::EncodingError)));
    assert!(!source.claims("video0"));
}

#[test]
fn missing_capabilities_fail_the_start() {
    let mut source = test_source();
    let mut session = source.start("video0").unwrap();
    while !session.is_finished() {
        session.advance(Reply::Done);
    }
    assert_eq!(session.outcome(), Some(Ok(())));
    assert_eq!(source.started(&session), Some(Err(PipelineError::ParseError)));
    assert!(!source.is_playing());
}

#[test]
fn stop_sends_the_end_of_the_stream_and_tears_down() {
    let mut source = test_source();
    let mut session = source.start("video0").unwrap();
    succeed(&mut session);
    source.started(&session).unwrap().unwrap();
    let mut session = source.stop("video0");
    assert!(!source.claims("video0"));
    assert_eq!(succeed(&mut session), vec![Command::SendEos, Command::AwaitEos, Command::Halt]);
    assert_eq!(session.outcome(), Some(Ok(())));
}

#[test]
fn a_teardown_that_fails_is_an_encoding_error_but_frees_the_device() {
    let mut source = test_source();
    let mut session = source.start("video0").unwrap();
    succeed(&mut session);
    source.started(&session).unwrap().unwrap();
    let mut session = source.stop("video0");
    session.advance(Reply::Failed);
    session.advance(Reply::Failed);
    session.advance(Reply::Failed);
    assert_eq!(session.outcome(), Some(Err(PipelineError::EncodingError)));
    assert!(!source.claims("video0"));
    assert!(source.start("video0").is_ok());
}

#[test]
fn stop_is_safe_when_nothing_runs() {
    let mut source = test_source();
    let session = source.stop("video0");
    assert_eq!(session.outcome(), Some(Ok(())));
    let mut failed = source.start("video0").unwrap();
    failed.advance(Reply::Failed);
    source.started(&failed);
    assert_eq!(source.stop("video0").outcome(), Some(Ok(())));
    let mut session = source.start("video0").unwrap();
    succeed(&mut session);
    source.started(&session).unwrap().unwrap();
    assert_eq!(source.stop("video1").outcome(), Some(Ok(())));
    assert!(source.claims("video0"));
}

#[test]
fn scan_keeps_the_video_devices_in_order() {
    let source = test_source();
    let entries = ["tty0", "video1", "null", "video0", "vide", "video", "myvideo0", "Video2"]
        .iter()
        .map(|e| e.to_string())
        .collect::<Vec<_>>();
    assert_eq!(source.scan(entries), Ok(vec![
        "video1".to_string(),
        "video0".to_string(),
        "video".to_string(),
    ]));
    assert_eq!(source.scan(Vec::new()), Ok(Vec::new()));
}

#[test]
fn a_device_is_listed_whether_or_not_it_is_claimed() {
    let mut source = test_source();
    let entries = vec!["video0".to_string(), "sda".to_string()];
    let before = source.scan(entries.clone());
    let mut session = source.start("video0").unwrap();
    succeed(&mut session);
    source.started(&session).unwrap().unwrap();
    let mut stop = source.stop("video0");
    succeed(&mut stop);
    assert_eq!(source.scan(entries), before);
    assert!(!source.claims("video0"));
}

#[test]
fn prefixes_are_told_character_by_character() {
    assert!(starts_with("video0", "video"));
    assert!(starts_with("video", "video"));
    assert!(starts_with("anything", ""));
    assert!(!starts_with("vide", "video"));
    assert!(!starts_with("", "video"));
    assert!(!starts_with("xvideo", "video"));
    assert!(starts_with("vidéo-ü", "vidé"));
}

#[test]
fn the_bus_is_drained_until_the_stream_ends() {
    assert!(message_loop(&BusEvent::Eos));
    assert!(message_loop(&BusEvent::Error));
    assert!(!message_loop(&BusEvent::Other));
    assert!(!message_loop(&BusEvent::Element {
        source: "video-sink".to_string(),
        name: "hls-segment-added".to_string(),
        segment: None,
    }));
}
