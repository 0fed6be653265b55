use osu_map_download::error::OsuMapDownloadError;
use osu_map_download::writer::ChunkEvent;
use osu_map_download::writer::StreamWriter;
use osu_map_download::writer::write_file;

fn ok_chunk(len: u64) -> ChunkEvent {
    ChunkEvent::Chunk { len, write_error: None }
}

#[test]
fn test_stream_clamped_progress() {
    // 1000 expected bytes delivered as 400 + 400 + 300: the reported
    // progress is clamped at the expected size, and so is the final count
    let events = vec![ok_chunk(400), ok_chunk(400), ok_chunk(300)];
    let log = write_file(Some(1000), "maps/1.osz", &events);
    assert_eq!(log.progress, vec![400, 800, 1000]);
    assert_eq!(log.result, Ok(1000));
}

#[test]
fn test_stream_exact_size() {
    let events = vec![ok_chunk(512), ok_chunk(488)];
    let log = write_file(Some(1000), "maps/1.osz", &events);
    assert_eq!(log.progress, vec![512, 1000]);
    assert_eq!(log.result, Ok(1000));
}

#[test]
fn test_stream_short_delivery() {
    // a shorter-than-expected stream is allowed; the count is what arrived
    let events = vec![ok_chunk(100)];
    let log = write_file(Some(1000), "maps/1.osz", &events);
    assert_eq!(log.progress, vec![100]);
    assert_eq!(log.result, Ok(100));
}

#[test]
fn test_stream_unknown_size() {
    let events = vec![ok_chunk(100)];
    let log = write_file(None, "maps/1.osz", &events);
    assert_eq!(log.result, Err(OsuMapDownloadError::UnknownSizeError));
    assert!(log.progress.is_empty());
}

#[test]
fn test_stream_read_error() {
    let events = vec![ok_chunk(400), ChunkEvent::ReadError, ok_chunk(400)];
    let log = write_file(Some(1000), "maps/1.osz", &events);
    assert_eq!(log.progress, vec![400]);
    assert_eq!(log.result, Err(OsuMapDownloadError::DownloadPartError));
}

#[test]
fn test_stream_write_error() {
    let events = vec![
        ok_chunk(400),
        ChunkEvent::Chunk { len: 100, write_error: Some(String::from("disk full")) },
    ];
    let log = write_file(Some(1000), "maps/1.osz", &events);
    assert_eq!(log.progress, vec![400]);
    assert_eq!(
        log.result,
        Err(OsuMapDownloadError::TargetFileError {
            path: String::from("maps/1.osz"),
            reason: String::from("disk full"),
        })
    );
}

#[test]
fn test_stream_writer_clamps_each_chunk() {
    let mut w = StreamWriter::begin(Some(10)).unwrap();
    assert_eq!(w.expected_size(), 10);
    assert_eq!(w.on_chunk(4), 4);
    assert_eq!(w.on_chunk(0), 4);
    assert_eq!(w.on_chunk(100), 10);
    assert_eq!(w.on_chunk(1), 10);
    assert_eq!(w.bytes_written(), 10);

    assert!(matches!(
        StreamWriter::begin(None),
        Err(OsuMapDownloadError::UnknownSizeError)
    ));
}
