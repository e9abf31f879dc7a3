use video_recorder::dtos::messages::RecordingInfo;
use video_recorder::recorder::common::PipelineError;
use video_recorder::recorder::framehandler::FRAME_BYTES;
use video_recorder::recorder::pipeline::{BusEvent, Command, Reply, Role, Segment, StreamCaps};
use video_recorder::recorder::preview::PreviewBuilder;
use video_recorder::recorder::session::Session;
use video_recorder::recorder::stillrecorder::StillRecorderBuilder;
use video_recorder::recorder::videocontroller::{VideoController, VideoControllerImpl, GRACE_MS};
use video_recorder::recorder::videorecorder::{BusAction, VideoRecorderBuilder};
use video_recorder::recorder::videosource::VideoSourceBuilder;

fn succeed(session: &mut Session) -> Vec<(Role, Command)> {
    let mut issued = Vec::new();
    while let Some(step) = session.current() {
        let command = step.command.clone();
        let reply = match command {
            Command::AwaitCaps { .. } => Reply::Caps(StreamCaps {
                format: "I420".to_string(),
                width: 720,
                height: 480,
            }),
            Command::PollBus { .. } => Reply::Message(BusEvent::Eos),
            _ => Reply::Done,
        };
        issued.push((step.role, command));
        session.advance(reply);
    }
    issued
}

fn fail_at(session: &mut Session, role: Role, failing: fn(&Command) -> bool) -> Vec<(Role, Command)> {
    let mut issued = Vec::new();
    while let Some(step) = session.current() {
        let command = step.command.clone();
        let reply = if step.role == role && failing(&command) {
            Reply::Failed
        } else {
            match command {
                Command::AwaitCaps { .. } => Reply::Caps(StreamCaps {
                    format: "I420".to_string(),
                    width: 720,
                    height: 480,
                }),
                Command::PollBus { .. } => Reply::Message(BusEvent::Error),
                _ => Reply::Done,
            }
        };
        issued.push((step.role, command));
        session.advance(reply);
    }
    issued
}

fn controller() -> VideoControllerImpl {
    let source = VideoSourceBuilder::new()
        .with_fd_dir("/tmp")
        .with_pipeline("videotestsrc name=video-source ! unixfdsink name=video-sink")
        .build();
    let recorder = VideoRecorderBuilder::new()
        .with_pipeline(
            "unixfdsrc name=video-source ! tee name=t \
                t. \
                ! videoconvert ! fakesink name=video-sink \
                t. \
                ! videoconvert ! appsink name=frame-sink"
                .to_string(),
        )
        .with_socket_path("/tmp/video0.sock".to_string())
        .with_on_chunk()
        .build();
    let still = StillRecorderBuilder::new()
        .with_device("video0")
        .with_pipeline_str(
            &*"videotestsrc name=video-source ! videoconvert ! jpegenc snapshot=true ! filesink name=video-sink"
                .to_string(),
        )
        .with_still_file_prefix("still")
        .build();
    let preview = PreviewBuilder::new()
        .with_device("video0")
        .with_pipeline_str(
            "videotestsrc name=video-source ! videoconvert ! fakesink name=video-sink",
        )
        .with_socket_path("/tmp/video.sock")
        .build();
    VideoControllerImpl::new(source, recorder, still, preview)
}

fn started_controller() -> VideoControllerImpl {
    let mut controller = controller();
    let mut session = controller.start("video0").unwrap();
    succeed(&mut session);
    controller.started(&session).unwrap().unwrap();
    controller
}

fn recording_controller() -> VideoControllerImpl {
    let mut controller = started_controller();
    let mut session = controller.start_recording().unwrap();
    succeed(&mut session);
    controller.recording_started(&session).unwrap().unwrap();
    controller
}

#[test]
fn test_video_controller() {
    let mut controller = controller();
    let res = controller.start("video0");
    assert_eq!(res.is_ok(), true);
    let mut session = res.unwrap();
    succeed(&mut session);
    assert_eq!(controller.started(&session).unwrap().is_ok(), true);
    let res = controller.start_recording();
    assert_eq!(res.is_ok(), true);
    let mut session = res.unwrap();
    succeed(&mut session);
    assert_eq!(controller.recording_started(&session).unwrap().is_ok(), true);
    let res = controller.take_still("video0", "test");
    assert_eq!(res.is_ok(), true);
    let mut session = res.unwrap();
    succeed(&mut session);
    assert_eq!(controller.still_taken("test", &session).unwrap().is_ok(), true);
    let res = controller.stop_recording();
    assert_eq!(res.is_ok(), true);
    let mut session = res.unwrap();
    succeed(&mut session);
    assert_eq!(session.outcome().unwrap().is_ok(), true);
    let mut session = controller.stop("video0");
    succeed(&mut session);
    let res = session.outcome().unwrap();
    assert_eq!(res.is_ok(), true);
}

#[test]
fn start_then_stop_succeeds_and_frees_the_device() {
    for device in ["video0", "video1", "video42"] {
        let mut controller = controller();
        let entries = vec![device.to_string(), "tty".to_string()];
        let listed = controller.scan(entries.clone());
        assert_eq!(listed, Ok(vec![device.to_string()]));
        let mut session = controller.start(device).unwrap();
        succeed(&mut session);
        let info = controller.started(&session).unwrap().unwrap();
        assert_eq!(info.device, device);
        assert_eq!(info.width, 720);
        assert_eq!(info.height, 480);
        assert_eq!(info.format, "I420");
        assert!(controller.is_source_active());
        assert!(controller.is_previewing());
        let mut session = controller.stop(device);
        succeed(&mut session);
        assert_eq!(session.outcome(), Some(Ok(())));
        assert!(!controller.is_source_active());
        assert!(!controller.is_previewing());
        assert!(!controller.is_recording());
        assert_eq!(controller.scan(entries), listed);
        assert!(controller.start(device).is_ok());
    }
}

#[test]
fn start_starts_the_source_and_then_the_preview() {
    let mut controller = controller();
    let mut session = controller.start("video0").unwrap();
    let issued = succeed(&mut session);
    let roles: Vec<Role> = issued.iter().map(|(role, _)| *role).collect();
    assert_eq!(
        roles,
        vec![
            Role::Source,
            Role::Source,
            Role::Source,
            Role::Source,
            Role::Source,
            Role::Source,
            Role::Source,
            Role::Preview,
            Role::Preview,
            Role::Preview,
        ]
    );
    assert_eq!(issued[3].1, Command::Play);
    assert_eq!(issued[6].1, Command::AwaitCaps { poll_ms: 100 });
    assert_eq!(
        issued[7].1,
        Command::Build {
            descriptor: "videotestsrc name=video-source ! videoconvert ! fakesink name=video-sink"
                .to_string()
        }
    );
    assert_eq!(issued[9].1, Command::Play);
}

#[test]
fn a_source_is_not_started_twice() {
    let mut controller = started_controller();
    assert_eq!(controller.start("video0").err(), Some(PipelineError::AlreadyStarted));
    assert_eq!(controller.start("video1").err(), Some(PipelineError::AlreadyStarted));
    assert!(controller.is_source_active());
    assert!(controller.is_previewing());
}

#[test]
fn a_preview_that_cannot_be_built_undoes_the_start() {
    let mut controller = controller();
    let mut session = controller.start("video0").unwrap();
    let issued = fail_at(&mut session, Role::Preview, |c| matches!(c, Command::Build { .. }));
    assert_eq!(issued.len(), 10);
    assert_eq!(issued[8], (Role::Preview, Command::Halt));
    assert_eq!(issued[9], (Role::Source, Command::Halt));
    assert_eq!(controller.started(&session), Some(Err(PipelineError::ParseError)));
    assert!(!controller.is_source_active());
    assert!(!controller.is_previewing());
    assert!(controller.start("video0").is_ok());
}

#[test]
fn a_preview_that_does_not_play_undoes_the_start() {
    let mut controller = controller();
    let mut session = controller.start("video0").unwrap();
    let issued = fail_at(&mut session, Role::Preview, |c| matches!(c, Command::Play));
    assert_eq!(issued[issued.len() - 2], (Role::Preview, Command::Halt));
    assert_eq!(issued[issued.len() - 1], (Role::Source, Command::Halt));
    assert_eq!(controller.started(&session), Some(Err(PipelineError::EncodingError)));
    assert!(!controller.is_source_active());
}

#[test]
fn a_source_that_cannot_be_built_is_a_parse_error() {
    let mut controller = controller();
    let mut session = controller.start("video0").unwrap();
    let issued = fail_at(&mut session, Role::Source, |c| matches!(c, Command::Build { .. }));
    assert_eq!(issued.len(), 1);
    assert_eq!(controller.started(&session), Some(Err(PipelineError::ParseError)));
    assert!(!controller.is_source_active());
}

#[test]
fn recording_before_start_is_an_encoding_error() {
    let mut controller = controller();
    assert_eq!(controller.start_recording().err(), Some(PipelineError::EncodingError));
    assert!(!controller.is_recording());
    let mut session = controller.start("video0").unwrap();
    assert_eq!(controller.start_recording().err(), Some(PipelineError::EncodingError));
    fail_at(&mut session, Role::Source, |c| matches!(c, Command::Play));
    controller.started(&session);
    assert_eq!(controller.start_recording().err(), Some(PipelineError::EncodingError));
}

#[test]
fn recording_after_stop_is_an_encoding_error() {
    let mut controller = started_controller();
    let mut session = controller.stop("video0");
    succeed(&mut session);
    assert_eq!(controller.start_recording().err(), Some(PipelineError::EncodingError));
}

#[test]
fn start_recording_builds_and_starts_the_recording_pipeline() {
    let mut controller = started_controller();
    let mut session = controller.start_recording().unwrap();
    assert!(!controller.is_recording());
    assert_eq!(controller.recording_started(&session), None);
    let issued = succeed(&mut session);
    assert_eq!(issued.len(), 8);
    assert!(issued.iter().all(|(role, _)| *role == Role::Recording));
    assert!(matches!(issued[0].1, Command::Build { .. }));
    assert_eq!(issued[5].1, Command::AttachFrameSink);
    assert_eq!(issued[6].1, Command::Play);
    assert_eq!(issued[7].1, Command::WatchBus);
    assert_eq!(
        controller.recording_started(&session),
        Some(Ok(RecordingInfo { prefix: "chunk".to_string() }))
    );
    assert!(controller.is_recording());
    assert_eq!(controller.recording_started(&session), None);
}

#[test]
fn a_second_start_recording_is_refused_and_keeps_the_batch() {
    let mut controller = recording_controller();
    controller.handle_frame(vec![1; FRAME_BYTES], false).unwrap();
    controller.handle_frame(vec![2; FRAME_BYTES], false).unwrap();
    assert_eq!(controller.start_recording().err(), Some(PipelineError::AlreadyStarted));
    assert!(controller.is_recording());
    match controller.message_loop(Role::Recording, BusEvent::Eos) {
        BusAction::Quit(Ok(Some(batch))) => {
            assert_eq!(batch.frames.len(), 2);
            assert_eq!(batch.index, 0);
        }
        other => panic!("unexpected action {:?}", other),
    }
}

#[test]
fn a_recording_can_be_started_again_after_it_was_stopped() {
    let mut controller = recording_controller();
    let mut session = controller.stop_recording().unwrap();
    succeed(&mut session);
    assert!(!controller.is_recording());
    assert!(controller.is_source_active());
    let mut session = controller.start_recording().unwrap();
    succeed(&mut session);
    assert!(controller.recording_started(&session).unwrap().is_ok());
}

#[test]
fn a_recording_that_cannot_be_built_is_a_parse_error() {
    let mut controller = started_controller();
    let mut session = controller.start_recording().unwrap();
    session.advance(Reply::Failed);
    assert_eq!(controller.recording_started(&session), Some(Err(PipelineError::ParseError)));
    assert!(!controller.is_recording());
    assert!(controller.start_recording().is_ok());
}

#[test]
fn a_recording_that_does_not_play_is_an_encoding_error() {
    let mut controller = started_controller();
    let mut session = controller.start_recording().unwrap();
    let issued = fail_at(&mut session, Role::Recording, |c| matches!(c, Command::Play));
    assert_eq!(issued.last().unwrap().1, Command::Halt);
    assert_eq!(controller.recording_started(&session), Some(Err(PipelineError::EncodingError)));
    assert!(!controller.is_recording());
}

#[test]
fn stop_recording_needs_a_recording() {
    let mut controller = controller();
    assert_eq!(controller.stop_recording().err(), Some(PipelineError::NotRunning));
    let mut controller = started_controller();
    assert_eq!(controller.stop_recording().err(), Some(PipelineError::NotRunning));
    let mut controller = recording_controller();
    assert!(controller.stop_recording().is_ok());
    assert_eq!(controller.stop_recording().err(), Some(PipelineError::NotRunning));
    assert!(controller.is_source_active());
}

#[test]
fn stop_does_not_stop_a_recording() {
    let mut controller = recording_controller();
    controller.handle_frame(vec![1; FRAME_BYTES], false).unwrap();
    let mut session = controller.stop("video0");
    let issued = succeed(&mut session);
    assert_eq!(
        issued,
        vec![
            (Role::Preview, Command::SendEos),
            (Role::Preview, Command::Halt),
            (Role::Source, Command::Pause { millis: GRACE_MS }),
            (Role::Source, Command::SendEos),
            (Role::Source, Command::AwaitEos),
            (Role::Source, Command::Halt),
        ]
    );
    assert!(issued.iter().all(|(role, _)| *role != Role::Recording));
    assert_eq!(session.outcome(), Some(Ok(())));
    assert!(controller.is_recording());
    assert!(!controller.is_source_active());
    assert!(!controller.is_previewing());
    match controller.message_loop(Role::Recording, BusEvent::Eos) {
        BusAction::Quit(Ok(Some(batch))) => assert_eq!(batch.frames.len(), 1),
        other => panic!("unexpected action {:?}", other),
    }
}

#[test]
fn a_stop_under_a_recording_blocks_neither_retry_nor_start() {
    let mut controller = recording_controller();
    let mut session = controller.stop("video0");
    succeed(&mut session);
    let again = controller.stop("video0");
    assert_eq!(again.outcome(), Some(Ok(())));
    assert!(controller.is_recording());
    assert_eq!(controller.start_recording().err(), Some(PipelineError::EncodingError));
    let mut session = controller.stop_recording().unwrap();
    succeed(&mut session);
    assert!(!controller.is_recording());
    let mut session = controller.start("video0").unwrap();
    succeed(&mut session);
    assert!(controller.started(&session).unwrap().is_ok());
}

#[test]
fn a_recording_does_not_change_the_result_of_stop() {
    let mut controller = recording_controller();
    let mut session = controller.stop("video0");
    fail_at(&mut session, Role::Preview, |_| true);
    assert_eq!(session.outcome(), Some(Ok(())));
    let mut controller = recording_controller();
    let mut session = controller.stop("video0");
    fail_at(&mut session, Role::Source, |c| matches!(c, Command::Halt));
    assert_eq!(session.outcome(), Some(Err(PipelineError::EncodingError)));
    assert!(controller.is_recording());
    assert!(!controller.is_source_active());
}

#[test]
fn stop_stops_the_preview_waits_and_stops_the_source() {
    let mut controller = started_controller();
    let mut session = controller.stop("video0");
    let issued = succeed(&mut session);
    assert_eq!(
        issued,
        vec![
            (Role::Preview, Command::SendEos),
            (Role::Preview, Command::Halt),
            (Role::Source, Command::Pause { millis: GRACE_MS }),
            (Role::Source, Command::SendEos),
            (Role::Source, Command::AwaitEos),
            (Role::Source, Command::Halt),
        ]
    );
    assert_eq!(GRACE_MS, 1000);
}

#[test]
fn a_preview_that_cannot_be_stopped_does_not_keep_the_source() {
    let mut controller = started_controller();
    let mut session = controller.stop("video0");
    let issued = fail_at(&mut session, Role::Preview, |_| true);
    assert_eq!(issued.len(), 6);
    assert_eq!(session.outcome(), Some(Ok(())));
    assert!(!controller.is_source_active());
}

#[test]
fn a_source_that_cannot_be_torn_down_is_reported_but_freed() {
    let mut controller = started_controller();
    let mut session = controller.stop("video0");
    fail_at(&mut session, Role::Source, |c| matches!(c, Command::Halt));
    assert_eq!(session.outcome(), Some(Err(PipelineError::EncodingError)));
    assert!(!controller.is_source_active());
    assert!(controller.start("video0").is_ok());
}

#[test]
fn controller_stop_is_safe_when_nothing_runs() {
    let mut controller = controller();
    let session = controller.stop("video0");
    assert_eq!(session.outcome(), Some(Ok(())));
    let mut controller = started_controller();
    let session = controller.stop("video7");
    assert_eq!(session.outcome(), Some(Ok(())));
    assert!(controller.is_source_active());
}

#[test]
fn a_still_needs_an_active_source() {
    let controller = controller();
    assert_eq!(controller.take_still("video0", "t1").err(), Some(PipelineError::NotRunning));
    let controller = started_controller();
    assert_eq!(controller.take_still("video1", "t1").err(), Some(PipelineError::NotRunning));
}

#[test]
fn a_still_is_named_after_its_name() {
    let controller = started_controller();
    let mut session = controller.take_still("video0", "t1").unwrap();
    succeed(&mut session);
    let info = controller.still_taken("t1", &session).unwrap().unwrap();
    assert!(info.still_file.ends_with("-t1.jpg"));
    assert_eq!(info.still_file, ".//still-t1.jpg");
    assert_eq!(info.device, "video0");
    assert!(controller.is_source_active());
    assert!(!controller.is_recording());
}

#[test]
fn a_still_leaves_a_recording_alone() {
    let mut controller = recording_controller();
    controller.handle_frame(vec![1; FRAME_BYTES], false).unwrap();
    let mut session = controller.take_still("video0", "t1").unwrap();
    succeed(&mut session);
    assert!(controller.still_taken("t1", &session).unwrap().is_ok());
    assert!(controller.is_recording());
    assert!(controller.is_source_active());
    match controller.message_loop(Role::Recording, BusEvent::Eos) {
        BusAction::Quit(Ok(Some(batch))) => assert_eq!(batch.frames.len(), 1),
        other => panic!("unexpected action {:?}", other),
    }
}

#[test]
fn chunks_of_a_recording_are_reported_through_the_controller() {
    let mut controller = recording_controller();
    let mut reported = Vec::new();
    for (number, location) in ["chunk_00000.ts", "chunk_00001.ts"].iter().enumerate() {
        let event = BusEvent::Element {
            source: "video-sink".to_string(),
            name: "hls-segment-added".to_string(),
            segment: Some(Segment {
                location: location.to_string(),
                running_time: 6 * (number as u64 + 1),
                duration: 6,
            }),
        };
        if let BusAction::Notify(chunk) = controller.message_loop(Role::Recording, event) {
            reported.push(chunk.chunk);
        }
    }
    assert_eq!(reported, vec!["chunk_00000.ts".to_string(), "chunk_00001.ts".to_string()]);
}

#[test]
fn a_recording_whose_source_went_away_does_not_start() {
    let mut controller = started_controller();
    let mut recording = controller.start_recording().unwrap();
    succeed(&mut recording);
    let mut stop = controller.stop("video0");
    succeed(&mut stop);
    assert_eq!(
        controller.recording_started(&recording),
        Some(Err(PipelineError::EncodingError))
    );
    assert!(!controller.is_recording());
}

#[test]
fn the_bus_of_the_source_only_ends_with_the_stream() {
    let mut controller = recording_controller();
    controller.handle_frame(vec![1; FRAME_BYTES], false).unwrap();
    let segment = BusEvent::Element {
        source: "video-sink".to_string(),
        name: "hls-segment-added".to_string(),
        segment: Some(Segment { location: "a".to_string(), running_time: 1, duration: 1 }),
    };
    for role in [Role::Source, Role::Preview, Role::Still] {
        assert_eq!(controller.message_loop(role, segment.clone()), BusAction::Continue);
        assert_eq!(controller.message_loop(role, BusEvent::Other), BusAction::Continue);
        assert_eq!(controller.message_loop(role, BusEvent::Eos), BusAction::Quit(Ok(None)));
        assert_eq!(controller.message_loop(role, BusEvent::Error), BusAction::Quit(Ok(None)));
    }
    assert!(matches!(
        controller.message_loop(Role::Recording, BusEvent::Eos),
        BusAction::Quit(Ok(Some(_)))
    ));
}
