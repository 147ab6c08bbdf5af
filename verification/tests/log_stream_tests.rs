use jobrunner::log_stream::{finished_stream_chunks, LogStream, PollOutcome, ReadEvent};

fn expect_chunk(out: PollOutcome) -> Vec<u8> {
    match out {
        PollOutcome::Chunk(c) => c,
        other => panic!("expected a chunk, got {:?}", other),
    }
}

#[test]
fn a_non_empty_read_yields_its_bytes() {
    let mut stream = LogStream::open(256);
    let out = stream.poll_step(ReadEvent::Data(b"1\n2\n3\n4\n".to_vec()), false);
    assert_eq!(expect_chunk(out), b"1\n2\n3\n4\n".to_vec());
    assert!(!stream.closed);
}

#[test]
fn an_empty_read_on_a_running_job_waits_instead_of_ending() {
    let mut stream = LogStream::open(256);
    assert!(matches!(stream.poll_step(ReadEvent::Empty, false), PollOutcome::Wait));
    // A zero-byte read is treated the same way.
    assert!(matches!(
        stream.poll_step(ReadEvent::Data(Vec::new()), false),
        PollOutcome::Wait
    ));
    assert!(!stream.closed);
}

#[test]
fn an_empty_read_on_a_stopped_job_ends_the_stream() {
    let mut stream = LogStream::open(256);
    assert!(matches!(stream.poll_step(ReadEvent::Empty, true), PollOutcome::End));
    assert!(matches!(
        stream.poll_step(ReadEvent::Data(Vec::new()), true),
        PollOutcome::End
    ));
}

#[test]
fn a_failed_read_yields_one_terminal_error_and_closes() {
    let mut stream = LogStream::open(256);
    assert!(matches!(stream.poll_step(ReadEvent::Failed, false), PollOutcome::Fail));
    assert!(stream.closed);
    // Once closed, every poll ends the stream, whatever the file holds.
    assert!(matches!(
        stream.poll_step(ReadEvent::Data(b"late".to_vec()), false),
        PollOutcome::End
    ));
}

#[test]
fn a_finished_job_replays_its_whole_file_in_one_default_read() {
    let contents = b"1\n2\n3\n4\n".to_vec();
    let chunks = finished_stream_chunks(&contents, 256);
    assert_eq!(chunks, vec![b"1\n2\n3\n4\n".to_vec()]);
}

#[test]
fn a_finished_job_with_a_short_file_ends_after_one_chunk() {
    let contents = b"test\n".to_vec();
    let chunks = finished_stream_chunks(&contents, 256);
    assert_eq!(chunks, vec![b"test\n".to_vec()]);
}

#[test]
fn small_buffers_cut_the_file_into_full_reads_and_a_tail() {
    let contents = b"abcdefgh".to_vec();
    let chunks = finished_stream_chunks(&contents, 3);
    assert_eq!(
        chunks,
        vec![b"abc".to_vec(), b"def".to_vec(), b"gh".to_vec()]
    );
    let flat: Vec<u8> = chunks.concat();
    assert_eq!(flat, contents);
}

#[test]
fn an_empty_file_of_a_finished_job_yields_no_chunks() {
    let chunks = finished_stream_chunks(&Vec::new(), 256);
    assert!(chunks.is_empty());
}

#[test]
fn reopening_the_stream_replays_the_same_byte_sequence() {
    let contents = b"for i in $(seq 1 4); do echo $i; done\n".to_vec();
    let first = finished_stream_chunks(&contents, 7);
    let second = finished_stream_chunks(&contents, 7);
    assert_eq!(first, second);
}
