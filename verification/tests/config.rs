use video_recorder::dtos::messages::{
    RecordingInfo, RecordingState, StillInfo, VideoSourceInfo, TIMESTAMP_FORMAT,
};
use video_recorder::utils::config::{Config, RecordingConfig};

#[test]
fn the_settings_entry_point_is_a_plain_value() {
    assert_eq!(Config::new(), Config {});
}

#[test]
fn empty_settings_are_all_empty() {
    let config = RecordingConfig::default();
    assert_eq!(config.source_pipeline, "");
    assert_eq!(config.recording_pipeline, "");
    assert_eq!(config.preview_pipeline, "");
    assert_eq!(config.still_pipeline, "");
    assert_eq!(config.chunk_size, 0);
    assert_eq!(config.output_dir, "");
    assert_eq!(config.chunk_prefix, "");
}

#[test]
fn settings_keep_what_they_are_given() {
    let config = RecordingConfig {
        recording_pipeline: "test".to_string(),
        source_pipeline: "test".to_string(),
        still_pipeline: "test".to_string(),
        preview_pipeline: "test".to_string(),
        chunk_size: 1024,
        output_dir: "/tmp".to_string(),
        chunk_prefix: "chunk".to_string(),
    };
    assert_eq!(config.clone(), config);
    assert_eq!(config.chunk_size, 1024);
    assert_eq!(config.output_dir, "/tmp");
}

#[test]
fn empty_messages_are_all_empty() {
    assert_eq!(
        VideoSourceInfo::default(),
        VideoSourceInfo { device: String::new(), width: 0, height: 0, format: String::new() }
    );
    assert_eq!(RecordingInfo::default(), RecordingInfo { prefix: String::new() });
    assert_eq!(
        StillInfo::default(),
        StillInfo {
            device: String::new(),
            width: 0,
            height: 0,
            format: String::new(),
            still_file: String::new(),
        }
    );
    assert_ne!(RecordingState::ChunkCreated, RecordingState::EOS);
}

#[test]
fn stills_are_stamped_to_the_second() {
    assert_eq!(TIMESTAMP_FORMAT, "%Y%m%d-%H%M%S");
}
