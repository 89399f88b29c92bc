//! The wire format: every message travels as one frame, a four-byte
//! big-endian length followed by exactly that many payload bytes.

use vstd::arithmetic::div_mod::lemma_div_denominator;
use vstd::prelude::*;

verus! {

/// Width of the length prefix, in bytes.
pub const LENGTH_PREFIX_SIZE: usize = 4;

/// Largest payload a frame may carry, in bytes (8 MiB).
pub const MAX_FRAME_LENGTH: usize = 8388608;

/// The length prefix announcing `n` payload bytes, most significant byte first.
pub open spec fn length_prefix(n: nat) -> Seq<u8> {
    seq![
        ((n / 16777216) % 256) as u8,
        ((n / 65536) % 256) as u8,
        ((n / 256) % 256) as u8,
        (n % 256) as u8,
    ]
}

/// The payload length announced by the first four bytes of `stream`.
pub open spec fn declared_length(stream: Seq<u8>) -> nat
    recommends
        stream.len() >= 4,
{
    (stream[0] as nat) * 16777216 + (stream[1] as nat) * 65536 + (stream[2] as nat) * 256 + (
    stream[3] as nat)
}

/// The frame that carries `payload`.
pub open spec fn frame(payload: Seq<u8>) -> Seq<u8> {
    length_prefix(payload.len()) + payload
}

/// What the front of a byte stream holds.
pub enum Parse {
    /// Not yet a whole frame: more bytes are needed.
    Incomplete,
    /// The length prefix announces more than `MAX_FRAME_LENGTH` bytes.
    TooLarge,
    /// A whole frame with this payload, followed by `rest`.
    Frame { payload: Seq<u8>, rest: Seq<u8> },
}

/// Reads one frame off the front of `stream`.
pub open spec fn parse(stream: Seq<u8>) -> Parse {
    if stream.len() < 4 {
        Parse::Incomplete
    } else if declared_length(stream) > MAX_FRAME_LENGTH {
        Parse::TooLarge
    } else if stream.len() < 4 + declared_length(stream) {
        Parse::Incomplete
    } else {
        Parse::Frame {
            payload: stream.subrange(4, 4 + declared_length(stream) as int),
            rest: stream.subrange(4 + declared_length(stream) as int, stream.len() as int),
        }
    }
}

/// Whether a stream that ended with `pending` still unread, no whole frame
/// among it, ended cleanly: between two frames, or right after a length
/// prefix and before the first byte of the payload it announces. A stream
/// that stops inside a prefix or inside a payload was cut short.
pub open spec fn ends_cleanly(pending: Seq<u8>) -> bool {
    pending.len() == 0 || pending.len() == LENGTH_PREFIX_SIZE
}

/// Why a frame could not be written or read.
#[derive(Clone, Copy, Debug, PartialEq, Eq, Structural)]
pub enum FrameError {
    /// The payload, or the announced length, exceeds `MAX_FRAME_LENGTH`.
    TooLarge,
    /// The stream ended inside a length prefix or inside a payload.
    Truncated,
}

/// A length prefix read back gives the length it was written for.
pub proof fn lemma_length_prefix_inverts(n: nat)
    requires
        n < 4294967296,
    ensures
        length_prefix(n).len() == 4,
        declared_length(length_prefix(n)) == n,
{
    let n = n as int;
    let low = n / 256;
    let mid = low / 256;
    let high = mid / 256;
    assert(n / 65536 == mid) by {
        lemma_div_denominator(n, 256, 256);
    }
    assert(n / 16777216 == high) by {
        lemma_div_denominator(n, 256, 256);
        lemma_div_denominator(n, 65536, 256);
    }
    assert(n == 256 * low + n % 256);
    assert(low == 256 * mid + low % 256);
    assert(mid == 256 * high + mid % 256);
    assert(0 <= high < 256);
    assert(high % 256 == high);
}

/// Wraps `payload` into a frame, or refuses it when it is too large.
pub fn encode_frame(payload: &[u8]) -> (result: Result<Vec<u8>, FrameError>)
    ensures
        payload@.len() <= MAX_FRAME_LENGTH ==> result is Ok && result->Ok_0@ == frame(payload@),
        payload@.len() > MAX_FRAME_LENGTH ==> result == Err::<Vec<u8>, FrameError>(
            FrameError::TooLarge,
        ),
{
    let n: usize = payload.len();
    if n > MAX_FRAME_LENGTH {
        return Err(FrameError::TooLarge);
    }
    let mut out: Vec<u8> = Vec::new();
    out.push(((n / 16777216) % 256) as u8);
    out.push(((n / 65536) % 256) as u8);
    out.push(((n / 256) % 256) as u8);
    out.push((n % 256) as u8);
    out.extend_from_slice(payload);
    assert(out@ == frame(payload@));
    Ok(out)
}

/// What a reader found at the front of the bytes received so far.
#[derive(Debug, PartialEq, Eq)]
pub enum FramePoll {
    /// One whole frame was taken off the front; this is its payload.
    Frame(Vec<u8>),
    /// No whole frame yet, and the stream is still open.
    NeedMore,
    /// The stream ended cleanly: no frame was cut short.
    EndOfStream,
    /// The bytes at the front can never become a frame.
    Failed(FrameError),
}

/// Collects the bytes received on one connection and hands them out frame by
/// frame. Its view is the sequence of bytes received and not yet handed out.
pub struct FrameReader {
    pending: Vec<u8>,
}

impl View for FrameReader {
    type V = Seq<u8>;

    closed spec fn view(&self) -> Seq<u8> {
        self.pending@
    }
}

impl FrameReader {
    /// A reader that has received nothing.
    pub fn new() -> (reader: FrameReader)
        ensures
            reader@ == Seq::<u8>::empty(),
    {
        FrameReader { pending: Vec::new() }
    }

    /// Appends bytes that arrived on the connection.
    pub fn extend(&mut self, bytes: &[u8])
        ensures
            final(self)@ == old(self)@ + bytes@,
    {
        self.pending.extend_from_slice(bytes);
        assert(self.pending@ == old(self).pending@ + bytes@);
    }

    /// Takes the next frame off the front, if a whole one has arrived.
    ///
    /// `end_of_stream` says that the peer has closed the connection, so no
    /// further bytes will come: what is pending then either starts with a
    /// whole frame, or is a clean end, or is a frame cut short.
    pub fn next_frame(&mut self, end_of_stream: bool) -> (poll: FramePoll)
        ensures
            match parse(old(self)@) {
                Parse::Frame { payload, rest } => {
                    &&& poll matches FramePoll::Frame(bytes)
                    &&& bytes@ == payload
                    &&& final(self)@ == rest
                },
                Parse::TooLarge => {
                    &&& poll == FramePoll::Failed(FrameError::TooLarge)
                    &&& final(self)@ == old(self)@
                },
                Parse::Incomplete => {
                    &&& final(self)@ == old(self)@
                    &&& poll == if !end_of_stream {
                        FramePoll::NeedMore
                    } else if ends_cleanly(old(self)@) {
                        FramePoll::EndOfStream
                    } else {
                        FramePoll::Failed(FrameError::Truncated)
                    }
                },
            },
    {
        let len: usize = self.pending.len();
        if len >= LENGTH_PREFIX_SIZE {
            let n: usize = (self.pending[0] as usize) * 16777216 + (self.pending[1] as usize)
                * 65536 + (self.pending[2] as usize) * 256 + (self.pending[3] as usize);
            if n > MAX_FRAME_LENGTH {
                return FramePoll::Failed(FrameError::TooLarge);
            }
            if len - LENGTH_PREFIX_SIZE >= n {
                let rest: Vec<u8> = self.pending.split_off(LENGTH_PREFIX_SIZE + n);
                let payload: Vec<u8> = self.pending.split_off(LENGTH_PREFIX_SIZE);
                self.pending = rest;
                return FramePoll::Frame(payload);
            }
        }
        if !end_of_stream {
            FramePoll::NeedMore
        } else if len == 0 || len == LENGTH_PREFIX_SIZE {
            FramePoll::EndOfStream
        } else {
            FramePoll::Failed(FrameError::Truncated)
        }
    }
}

/// Decoding undoes encoding: a stream that starts with the frame of `payload`
/// parses to exactly that payload, followed by whatever came after the frame.
pub proof fn lemma_frame_round_trip(payload: Seq<u8>, rest: Seq<u8>)
    requires
        payload.len() <= MAX_FRAME_LENGTH,
    ensures
        parse(frame(payload) + rest) == (Parse::Frame { payload, rest }),
{
    let stream = frame(payload) + rest;
    lemma_length_prefix_inverts(payload.len());
    assert(declared_length(stream) == payload.len());
    assert(stream.subrange(4, 4 + payload.len() as int) == payload);
    assert(stream.subrange(4 + payload.len() as int, stream.len() as int) == rest);
}

} // verus!
