use web_server::frame::{frame_step, header_complete, FrameProgress, ReadEvent};

#[test]
fn empty_buffer_is_incomplete() {
    assert!(!header_complete(&Vec::new()));
}

#[test]
fn bare_terminator_is_complete() {
    assert!(header_complete(&b"\r\n\r\n".to_vec()));
}

#[test]
fn terminator_after_header_is_complete() {
    assert!(header_complete(&b"GET / HTTP/1.1\r\nHost: x\r\n\r\n".to_vec()));
}

#[test]
fn three_terminator_bytes_are_incomplete() {
    assert!(!header_complete(&b"\r\n\r".to_vec()));
}

#[test]
fn four_other_bytes_are_incomplete() {
    assert!(!header_complete(&b"abcd".to_vec()));
}

#[test]
fn terminator_in_the_middle_is_incomplete() {
    assert!(!header_complete(&b"a\r\n\r\nb".to_vec()));
}

#[test]
fn silent_close_before_any_byte() {
    let mut buf = Vec::new();
    let r = frame_step(&mut buf, ReadEvent::Closed);
    assert_eq!(r, FrameProgress::ClosedEarly);
    assert!(buf.is_empty());
}

#[test]
fn close_after_partial_header_abandons_request() {
    let mut buf = Vec::new();
    let r = frame_step(&mut buf, ReadEvent::Line(b"GET / HTTP/1.1\r\n".to_vec()));
    assert_eq!(r, FrameProgress::NeedMore);
    let r = frame_step(&mut buf, ReadEvent::Closed);
    assert_eq!(r, FrameProgress::ClosedEarly);
    assert_eq!(buf, b"GET / HTTP/1.1\r\n".to_vec());
}

#[test]
fn lines_accumulate_until_terminator() {
    let mut buf = Vec::new();
    assert_eq!(frame_step(&mut buf, ReadEvent::Line(b"GET / HTTP/1.1\r\n".to_vec())), FrameProgress::NeedMore);
    assert_eq!(frame_step(&mut buf, ReadEvent::Line(b"Host: example\r\n".to_vec())), FrameProgress::NeedMore);
    assert_eq!(frame_step(&mut buf, ReadEvent::Line(b"\r\n".to_vec())), FrameProgress::Complete);
    assert_eq!(buf, b"GET / HTTP/1.1\r\nHost: example\r\n\r\n".to_vec());
}

#[test]
fn one_line_with_terminator_completes_at_once() {
    let mut buf = Vec::new();
    let r = frame_step(&mut buf, ReadEvent::Line(b"GET /sleep HTTP/1.1\r\n\r\n".to_vec()));
    assert_eq!(r, FrameProgress::Complete);
    assert_eq!(buf, b"GET /sleep HTTP/1.1\r\n\r\n".to_vec());
}
