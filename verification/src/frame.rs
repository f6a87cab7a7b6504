//! Framing one request header: lines read from the session are appended to
//! a buffer until its trailing bytes are the header terminator, or the peer
//! closes first, in which case there is nothing to respond to.

use vstd::prelude::*;
use crate::bytes::extend_from;
use crate::protocol::header_terminator;

verus! {

/// What one attempt to read a header line produced: the peer closed the
/// connection, or one more chunk of bytes arrived.
#[derive(Debug)]
pub enum ReadEvent {
    Closed,
    Line(Vec<u8>),
}

/// Where the framing loop stands after a step.
#[derive(Clone, Copy, Debug, PartialEq, Eq, Structural)]
pub enum FrameProgress {
    /// The peer closed before a complete header arrived: respond with
    /// nothing, silently.
    ClosedEarly,
    /// The header is not complete yet: read another line.
    NeedMore,
    /// The buffer ends with the header terminator: the request is framed.
    Complete,
}

/// The buffer's trailing bytes are the header terminator `\r\n\r\n`.
pub open spec fn header_complete_spec(buf: Seq<u8>) -> bool {
    buf.len() >= 4 && buf.subrange(buf.len() - 4, buf.len() as int) == header_terminator()
}

/// True exactly when the buffer ends with the header terminator.
pub fn header_complete(buf: &Vec<u8>) -> (r: bool)
    ensures
        r == header_complete_spec(buf@),
{
    let n = buf.len();
    if n < 4 {
        return false;
    }
    let r = buf[n - 4] == 13 && buf[n - 3] == 10 && buf[n - 2] == 13 && buf[n - 1] == 10;
    proof {
        let tail = buf@.subrange(n - 4, n as int);
        assert(tail[0] == buf@[n - 4]);
        assert(tail[1] == buf@[n - 3]);
        assert(tail[2] == buf@[n - 2]);
        assert(tail[3] == buf@[n - 1]);
        if r {
            assert(tail =~= header_terminator());
        }
    }
    r
}

/// One step of the header-framing loop. A read of zero bytes, first or
/// later, abandons the request silently and leaves the buffer untouched;
/// a line is appended whole, and the request is complete exactly when the
/// grown buffer ends with the header terminator.
pub fn frame_step(buf: &mut Vec<u8>, event: ReadEvent) -> (r: FrameProgress)
    ensures
        event is Closed ==> r == FrameProgress::ClosedEarly && final(buf)@ == old(buf)@,
        event matches ReadEvent::Line(line) ==> final(buf)@ == old(buf)@ + line@ && (r
            == FrameProgress::Complete <==> header_complete_spec(final(buf)@)) && (r
            == FrameProgress::Complete || r == FrameProgress::NeedMore),
{
    match event {
        ReadEvent::Closed => FrameProgress::ClosedEarly,
        ReadEvent::Line(line) => {
            extend_from(buf, &line);
            if header_complete(buf) {
                FrameProgress::Complete
            } else {
                FrameProgress::NeedMore
            }
        },
    }
}

} // verus!
