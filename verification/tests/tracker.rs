use std::io::Cursor;
use tracking_core::tracker::{
    line_read_step, read_bounded_line, sanitize_preview, take_line_chunk, LineRead, trim_line_end, EmptyPoll, LineChunk,
    MockFrame, MockPinch, MockVisionTracker, StreamFrameCounter, MAX_PREVIEW_BASE64_BYTES,
};

#[test]
fn bounded_line_reader_rejects_oversized_lines() {
    let mut reader = Cursor::new(b"abcdef\n".to_vec());
    let mut buf = Vec::new();
    let err = read_bounded_line(&mut reader, &mut buf, 4).expect_err("line too large");
    assert_eq!(err.kind(), std::io::ErrorKind::InvalidData);
}

#[test]
fn bounded_line_reader_reads_line_without_newline_at_eof() {
    let mut reader = Cursor::new(b"abc".to_vec());
    let mut buf = Vec::new();
    let has_line = read_bounded_line(&mut reader, &mut buf, 4).expect("read");
    assert!(has_line);
    assert_eq!(buf, b"abc");
}

#[test]
fn bounded_line_reader_reuses_buffer_for_multiple_lines() {
    let mut reader = Cursor::new(b"abc\ndef\n".to_vec());
    let mut buf = Vec::new();

    assert!(read_bounded_line(&mut reader, &mut buf, 8).expect("first"));
    assert_eq!(buf, b"abc");
    assert!(read_bounded_line(&mut reader, &mut buf, 8).expect("second"));
    assert_eq!(buf, b"def");
    assert!(!read_bounded_line(&mut reader, &mut buf, 8).expect("eof"));
}

#[test]
fn bounded_line_reader_strips_crlf_and_counts_the_newline() {
    let mut reader = Cursor::new(b"ab\r\n\ncd".to_vec());
    let mut buf = Vec::new();
    assert!(read_bounded_line(&mut reader, &mut buf, 4).expect("crlf line"));
    assert_eq!(buf, b"ab");
    assert_eq!(reader.position(), 4);
    assert!(read_bounded_line(&mut reader, &mut buf, 4).expect("empty line"));
    assert!(buf.is_empty());
    assert!(read_bounded_line(&mut reader, &mut buf, 4).expect("last line"));
    assert_eq!(buf, b"cd");
    assert!(!read_bounded_line(&mut reader, &mut buf, 4).expect("eof"));
}

#[test]
fn bounded_line_reader_leaves_an_oversized_line_unread() {
    let mut reader = Cursor::new(b"abcd\n".to_vec());
    let mut buf = vec![1, 2, 3];
    assert!(read_bounded_line(&mut reader, &mut buf, 4).is_err());
    assert!(buf.is_empty());
    assert_eq!(reader.position(), 0);
    assert!(read_bounded_line(&mut reader, &mut buf, 5).expect("fits"));
    assert_eq!(buf, b"abcd");
}

#[test]
fn line_chunks_accumulate_until_the_limit() {
    let mut buf = b"ab".to_vec();
    let chunk = take_line_chunk(&mut buf, b"cd\nef", 0, 5).expect("fits");
    assert_eq!(
        chunk,
        LineChunk {
            take_len: 3,
            has_newline: true
        }
    );
    assert_eq!(buf, b"abcd\n");
    let mut buf2 = b"ab".to_vec();
    assert!(take_line_chunk(&mut buf2, b"xcd", 1, 3).is_err());
    assert_eq!(buf2, b"ab");
    let mut buf3 = Vec::new();
    let chunk = take_line_chunk(&mut buf3, b"xcd", 1, 3).expect("partial");
    assert!(!chunk.has_newline);
    assert_eq!(buf3, b"cd");
    let mut line = b"ok\r\n\r".to_vec();
    trim_line_end(&mut line);
    assert_eq!(line, b"ok");
}

#[test]
fn previews_must_be_base64_within_the_limit() {
    assert_eq!(
        sanitize_preview(Some("YWJjZA==".to_string())).as_deref(),
        Some("YWJjZA==")
    );
    assert_eq!(sanitize_preview(Some("not a data url".to_string())), None);
    assert_eq!(sanitize_preview(None), None);
    assert_eq!(sanitize_preview(Some(String::new())).as_deref(), Some(""));
    let at_limit = "A".repeat(MAX_PREVIEW_BASE64_BYTES);
    assert!(sanitize_preview(Some(at_limit)).is_some());
    let over = "A".repeat(MAX_PREVIEW_BASE64_BYTES + 1);
    assert!(sanitize_preview(Some(over)).is_none());
}

#[test]
fn mock_tracker_cycles_through_its_script() {
    let mut tracker = MockVisionTracker::new();
    let (id, frame) = tracker.next_frame();
    assert_eq!(id, 0);
    assert_eq!(
        frame,
        MockFrame::Hand {
            open_palm: true,
            fist: false,
            pinch: MockPinch::NoPinch
        }
    );
    tracker.frame_id = 90;
    assert_eq!(
        tracker.next_frame().1,
        MockFrame::Hand {
            open_palm: false,
            fist: false,
            pinch: MockPinch::IndexPinch
        }
    );
    tracker.frame_id = 141;
    assert_eq!(
        tracker.next_frame().1,
        MockFrame::Hand {
            open_palm: false,
            fist: false,
            pinch: MockPinch::MiddlePinch
        }
    );
    tracker.frame_id = 200;
    assert_eq!(
        tracker.next_frame().1,
        MockFrame::Hand {
            open_palm: false,
            fist: true,
            pinch: MockPinch::NoPinch
        }
    );
    tracker.frame_id = 430;
    assert_eq!(tracker.next_frame(), (430, MockFrame::Dropped));
    assert_eq!(tracker.frame_id, 431);
    assert_eq!(MockVisionTracker::default().frame_id, 0);
}

#[test]
fn stream_counter_falls_back_after_exit() {
    let mut counter = StreamFrameCounter::new();
    assert_eq!(counter.on_empty_poll(), EmptyPoll::Dropped { frame_id: 0 });
    counter.on_packet(41);
    assert_eq!(counter.frame_id, 42);
    counter.on_packet(u64::MAX);
    assert_eq!(counter.frame_id, u64::MAX);
    counter.mark_exited();
    assert_eq!(counter.on_empty_poll(), EmptyPoll::UseFallback);
}

/// Reads one line by feeding the stream to the step in chunks of `chunk`
/// bytes, as a buffered reader would.
fn read_in_chunks(stream: &[u8], chunk: usize, max_len: usize) -> (LineRead, Vec<u8>, usize) {
    let mut buf = Vec::new();
    let mut pos = 0;
    loop {
        let end = (pos + chunk).min(stream.len());
        let step = line_read_step(&mut buf, &stream[pos..end], max_len);
        match step {
            LineRead::More { consume } => pos += consume,
            LineRead::Line { consume } => return (step, buf, pos + consume),
            other => return (other, buf, pos),
        }
    }
}

#[test]
fn buffered_line_steps_do_not_depend_on_chunking() {
    for chunk in 1..8 {
        let (step, buf, consumed) = read_in_chunks(b"abc\r\ndef\n", chunk, 16);
        assert!(matches!(step, LineRead::Line { .. }));
        assert_eq!(buf, b"abc");
        assert_eq!(consumed, 5);
        let (step, buf, consumed) = read_in_chunks(b"tail", chunk, 16);
        assert!(matches!(step, LineRead::Line { consume: 0 }));
        assert_eq!(buf, b"tail");
        assert_eq!(consumed, 4);
        let (step, _, _) = read_in_chunks(b"abcdef\n", chunk, 4);
        assert_eq!(step, LineRead::TooLong);
        let (step, buf, _) = read_in_chunks(b"", chunk, 4);
        assert_eq!(step, LineRead::EndOfStream);
        assert!(buf.is_empty());
    }
}

#[test]
fn line_step_on_a_newline_chunk() {
    let mut buf = b"ab".to_vec();
    assert_eq!(line_read_step(&mut buf, b"c\nrest", 8), LineRead::Line { consume: 2 });
    assert_eq!(buf, b"abc");
    let mut buf = b"ab".to_vec();
    assert_eq!(line_read_step(&mut buf, b"cd", 8), LineRead::More { consume: 2 });
    assert_eq!(buf, b"abcd");
    let mut buf = b"abcd".to_vec();
    assert_eq!(line_read_step(&mut buf, b"e\n", 5), LineRead::TooLong);
    assert_eq!(buf, b"abcd");
}
