use std::time::Duration;
use video_recorder::dtos::messages::ChunkInfo;

#[test]
fn chunk_info_keeps_its_fields() {
    let info = ChunkInfo::new("a_00000.ts".to_string(), "6".to_string(), Duration::from_secs(6));
    assert_eq!(info.chunk, "a_00000.ts");
    assert_eq!(info.timestamp, "6");
    assert_eq!(info.duration, Duration::from_secs(6));
}

#[test]
fn an_empty_chunk_lasts_no_time() {
    let info = ChunkInfo::default();
    assert_eq!(info.chunk, "");
    assert_eq!(info.timestamp, "");
    assert_eq!(info.duration, Duration::from_secs(0));
    assert_eq!(info.duration.as_secs(), 0);
}
