//! Length-delimited framing.
//!
//! A frame on the wire is a four-byte big-endian length followed by that many
//! payload bytes. A frame may carry at most [`MAX_FRAME_LENGTH`] bytes; a
//! larger declared length is a protocol violation.

use vstd::prelude::*;
use vstd::slice::{slice_subrange, slice_to_vec};

verus! {

/// Largest payload a frame may carry: 32 MiB.
pub const MAX_FRAME_LENGTH: usize = 32 * 1024 * 1024;

/// Number of bytes in the length prefix.
pub const HEADER_LENGTH: usize = 4;

/// The ways a byte stream can fail to be a sequence of frames.
#[derive(Clone, Copy, Debug, PartialEq, Eq, Structural)]
pub enum ProtocolError {
    /// A length prefix declares more than [`MAX_FRAME_LENGTH`] bytes.
    FrameTooLarge,
    /// The stream ended inside a frame.
    Truncated,
}

impl ProtocolError {
    /// What the user is told.
    pub open spec fn text(self) -> Seq<char> {
        match self {
            ProtocolError::FrameTooLarge => "frame size too big"@,
            ProtocolError::Truncated => "bytes remaining on stream"@,
        }
    }

    /// What the user is told.
    pub fn message(&self) -> (message: String)
        ensures
            message@ == self.text(),
    {
        match self {
            ProtocolError::FrameTooLarge => "frame size too big".to_owned(),
            ProtocolError::Truncated => "bytes remaining on stream".to_owned(),
        }
    }
}

/// The four bytes that announce a payload of `n` bytes, most significant first.
pub open spec fn length_prefix(n: nat) -> Seq<u8> {
    seq![
        (n / 0x100_0000 % 0x100) as u8,
        (n / 0x1_0000 % 0x100) as u8,
        (n / 0x100 % 0x100) as u8,
        (n % 0x100) as u8,
    ]
}

/// The payload length that the first four bytes of `bytes` announce.
pub open spec fn declared_length(bytes: Seq<u8>) -> int
    recommends
        bytes.len() >= 4,
{
    (bytes[0] as int) * 0x100_0000 + (bytes[1] as int) * 0x1_0000 + (bytes[2] as int) * 0x100
        + (bytes[3] as int)
}

/// The frame that carries `payload`.
pub open spec fn frame(payload: Seq<u8>) -> Seq<u8> {
    length_prefix(payload.len()) + payload
}

/// What stands at the front of a byte sequence.
pub enum Decoded {
    /// Not enough bytes yet to tell, or to complete the frame.
    Incomplete,
    /// The length prefix declares more than the limit.
    TooLarge,
    /// A whole frame, and the bytes that follow it.
    Frame { payload: Seq<u8>, rest: Seq<u8> },
}

/// Reads one frame off the front of `bytes`.
pub open spec fn decode_one(bytes: Seq<u8>) -> Decoded {
    if bytes.len() < 4 {
        Decoded::Incomplete
    } else if declared_length(bytes) > MAX_FRAME_LENGTH {
        Decoded::TooLarge
    } else if bytes.len() < 4 + declared_length(bytes) {
        Decoded::Incomplete
    } else {
        Decoded::Frame {
            payload: bytes.subrange(4, 4 + declared_length(bytes)),
            rest: bytes.subrange(4 + declared_length(bytes), bytes.len() as int),
        }
    }
}

/// The frames of a finished stream, and how the stream ended.
pub struct Decoding {
    /// Payloads of the whole frames, in stream order.
    pub frames: Seq<Seq<u8>>,
    /// Why decoding stopped, if it did not reach a clean end.
    pub error: Option<ProtocolError>,
}

/// Reads frames off `bytes` until the stream ends or breaks the protocol.
pub open spec fn decode_all(bytes: Seq<u8>) -> Decoding
    decreases bytes.len(),
{
    match decode_one(bytes) {
        Decoded::Frame { payload, rest } => {
            let tail = decode_all(rest);
            Decoding { frames: seq![payload] + tail.frames, error: tail.error }
        },
        Decoded::TooLarge => Decoding {
            frames: Seq::empty(),
            error: Some(ProtocolError::FrameTooLarge),
        },
        Decoded::Incomplete => Decoding {
            frames: Seq::empty(),
            error: if bytes.len() == 0 {
                None
            } else {
                Some(ProtocolError::Truncated)
            },
        },
    }
}

/// The stream made of one frame per payload, in order.
pub open spec fn frames(payloads: Seq<Seq<u8>>) -> Seq<u8>
    decreases payloads.len(),
{
    if payloads.len() == 0 {
        Seq::empty()
    } else {
        frame(payloads[0]) + frames(payloads.drop_first())
    }
}

/// A length prefix reads back as the length it was written for.
pub proof fn lemma_prefix_round_trip(n: nat)
    requires
        n < 0x1_0000_0000,
    ensures
        length_prefix(n).len() == 4,
        declared_length(length_prefix(n)) == n,
{
}

/// Decoding a frame gives back the payload it was built from, and leaves what
/// followed the frame untouched.
pub proof fn lemma_frame_round_trip(payload: Seq<u8>, rest: Seq<u8>)
    requires
        payload.len() <= MAX_FRAME_LENGTH,
    ensures
        decode_one(frame(payload) + rest) == (Decoded::Frame { payload, rest }),
{
    let bytes = frame(payload) + rest;
    lemma_prefix_round_trip(payload.len());
    assert(declared_length(bytes) == payload.len());
    assert(bytes.subrange(4, 4 + payload.len() as int) =~= payload);
    assert(bytes.subrange(4 + payload.len() as int, bytes.len() as int) =~= rest);
}

/// A stream of frames decodes to the payloads it was built from, in order,
/// and ends cleanly.
pub proof fn lemma_stream_round_trip(payloads: Seq<Seq<u8>>)
    requires
        forall|i: int|
            0 <= i < payloads.len() ==> (#[trigger] payloads[i]).len() <= MAX_FRAME_LENGTH,
    ensures
        decode_all(frames(payloads)) == (Decoding { frames: payloads, error: None }),
    decreases payloads.len(),
{
    if payloads.len() == 0 {
        assert(decode_all(frames(payloads)).frames =~= payloads);
    } else {
        let tail = payloads.drop_first();
        lemma_stream_round_trip(tail);
        lemma_frame_round_trip(payloads[0], frames(tail));
        assert(seq![payloads[0]] + tail =~= payloads);
    }
}

/// An oversize length prefix is refused whatever follows it, and nothing after
/// it is read as a frame.
pub proof fn lemma_oversize_rejected(bytes: Seq<u8>)
    requires
        bytes.len() >= 4,
        declared_length(bytes) > MAX_FRAME_LENGTH,
    ensures
        decode_one(bytes) == Decoded::TooLarge,
        decode_all(bytes) == (Decoding {
            frames: Seq::empty(),
            error: Some(ProtocolError::FrameTooLarge),
        }),
{
}

/// What has been decided about the front of a stream stays decided when
/// more bytes arrive: a whole frame stays the same frame, and an oversize
/// length prefix stays refused.
pub proof fn lemma_more_bytes_change_nothing(bytes: Seq<u8>, more: Seq<u8>)
    ensures
        decode_one(bytes) matches Decoded::Frame { payload, rest } ==> decode_one(bytes + more)
            == (Decoded::Frame { payload, rest: rest + more }),
        decode_one(bytes) is TooLarge ==> decode_one(bytes + more) is TooLarge,
{
    let longer = bytes + more;
    if bytes.len() >= 4 {
        let n = declared_length(bytes);
        if n <= MAX_FRAME_LENGTH && bytes.len() >= 4 + n {
            assert(longer.subrange(4, 4 + n) =~= bytes.subrange(4, 4 + n));
            assert(longer.subrange(4 + n, longer.len() as int) =~= bytes.subrange(
                4 + n,
                bytes.len() as int,
            ) + more);
        }
    }
}

/// Frames `payload` for the wire.
///
/// Fails with `FrameTooLarge` exactly when the payload exceeds the limit.
pub fn encode(payload: &[u8]) -> (r: Result<Vec<u8>, ProtocolError>)
    ensures
        payload@.len() <= MAX_FRAME_LENGTH ==> r is Ok && r->Ok_0@ == frame(payload@),
        payload@.len() > MAX_FRAME_LENGTH ==> r == Err::<Vec<u8>, ProtocolError>(
            ProtocolError::FrameTooLarge,
        ),
{
    let n: usize = payload.len();
    if n > MAX_FRAME_LENGTH {
        return Err(ProtocolError::FrameTooLarge);
    }
    let mut out: Vec<u8> = Vec::new();
    out.push((n / 0x100_0000 % 0x100) as u8);
    out.push((n / 0x1_0000 % 0x100) as u8);
    out.push((n / 0x100 % 0x100) as u8);
    out.push((n % 0x100) as u8);
    out.extend_from_slice(payload);
    Ok(out)
}

/// Reads one frame off the front of `buffer`.
///
/// Returns the payload and the number of bytes the frame occupied, `None`
/// while the frame is not complete, and `FrameTooLarge` as soon as the length
/// prefix is readable and exceeds the limit.
pub fn decode_frame(buffer: &[u8]) -> (r: Result<Option<(Vec<u8>, usize)>, ProtocolError>)
    ensures
        match decode_one(buffer@) {
            Decoded::Incomplete => r == Ok::<Option<(Vec<u8>, usize)>, ProtocolError>(None),
            Decoded::TooLarge => r == Err::<Option<(Vec<u8>, usize)>, ProtocolError>(
                ProtocolError::FrameTooLarge,
            ),
            Decoded::Frame { payload, rest } => {
                &&& r matches Ok(Some(found))
                &&& found.0@ == payload
                &&& found.1 == 4 + payload.len()
                &&& buffer@.subrange(found.1 as int, buffer@.len() as int) == rest
            },
        },
{
    if buffer.len() < HEADER_LENGTH {
        return Ok(None);
    }
    let declared: u64 = (buffer[0] as u64) * 0x100_0000 + (buffer[1] as u64) * 0x1_0000
        + (buffer[2] as u64) * 0x100 + (buffer[3] as u64);
    if declared > MAX_FRAME_LENGTH as u64 {
        return Err(ProtocolError::FrameTooLarge);
    }
    let n: usize = declared as usize;
    if buffer.len() - HEADER_LENGTH < n {
        return Ok(None);
    }
    let end: usize = HEADER_LENGTH + n;
    let payload = slice_to_vec(slice_subrange(buffer, HEADER_LENGTH, end));
    Ok(Some((payload, end)))
}

/// The payloads that a list of byte vectors holds.
pub open spec fn payloads_of(found: Seq<Vec<u8>>) -> Seq<Seq<u8>> {
    found.map_values(|payload: Vec<u8>| payload@)
}

/// Splits a finished stream into its frames.
///
/// Returns the payloads of the whole frames in stream order, and the reason
/// decoding stopped if the stream did not end on a frame boundary: an
/// oversize length prefix, or bytes that stop short of a whole frame.
pub fn decode(stream: &[u8]) -> (r: (Vec<Vec<u8>>, Option<ProtocolError>))
    ensures
        payloads_of(r.0@) == decode_all(stream@).frames,
        r.1 == decode_all(stream@).error,
{
    let mut found: Vec<Vec<u8>> = Vec::new();
    let mut at: usize = 0;
    let total: usize = stream.len();
    assert(stream@.subrange(0, total as int) =~= stream@);
    loop
        invariant
            at <= total == stream@.len(),
            decode_all(stream@).frames == payloads_of(found@) + decode_all(
                stream@.subrange(at as int, total as int),
            ).frames,
            decode_all(stream@).error == decode_all(
                stream@.subrange(at as int, total as int),
            ).error,
        decreases total - at,
    {
        let ghost suffix = stream@.subrange(at as int, total as int);
        match decode_frame(slice_subrange(stream, at, total)) {
            Ok(Some((payload, used))) => {
                assert(suffix.subrange(used as int, suffix.len() as int) =~= stream@.subrange(
                    at + used,
                    total as int,
                ));
                found.push(payload);
                at = at + used;
            },
            Ok(None) => {
                let error = if at == total {
                    None
                } else {
                    Some(ProtocolError::Truncated)
                };
                return (found, error);
            },
            Err(e) => {
                return (found, Some(e));
            },
        }
    }
}

/// Reassembles frames from a stream that arrives in pieces.
///
/// Bytes are handed in as they arrive; whole frames are taken out in order.
/// The view of a decoder is the bytes it holds that no frame has claimed yet.
pub struct FrameDecoder {
    pending: Vec<u8>,
}

impl View for FrameDecoder {
    type V = Seq<u8>;

    closed spec fn view(&self) -> Seq<u8> {
        self.pending@
    }
}

impl FrameDecoder {
    /// A decoder that holds no bytes.
    pub fn new() -> (decoder: FrameDecoder)
        ensures
            decoder@ == Seq::<u8>::empty(),
    {
        FrameDecoder { pending: Vec::new() }
    }

    /// Number of bytes held that no frame has claimed yet.
    pub fn pending(&self) -> (n: usize)
        ensures
            n == self@.len(),
    {
        self.pending.len()
    }

    /// Takes in bytes that arrived on the stream.
    pub fn extend(&mut self, bytes: &[u8])
        ensures
            final(self)@ == old(self)@ + bytes@,
    {
        self.pending.extend_from_slice(bytes);
    }

    /// Takes the next whole frame out, if one has arrived.
    ///
    /// An oversize length prefix fails with `FrameTooLarge` and leaves the
    /// held bytes as they were: none of them is handed out as payload.
    pub fn next_frame(&mut self) -> (r: Result<Option<Vec<u8>>, ProtocolError>)
        ensures
            match decode_one(old(self)@) {
                Decoded::Incomplete => {
                    &&& r == Ok::<Option<Vec<u8>>, ProtocolError>(None)
                    &&& final(self)@ == old(self)@
                },
                Decoded::TooLarge => {
                    &&& r == Err::<Option<Vec<u8>>, ProtocolError>(ProtocolError::FrameTooLarge)
                    &&& final(self)@ == old(self)@
                },
                Decoded::Frame { payload, rest } => {
                    &&& r matches Ok(Some(found))
                    &&& found@ == payload
                    &&& final(self)@ == rest
                },
            },
    {
        match decode_frame(self.pending.as_slice()) {
            Ok(Some((payload, used))) => {
                let rest = self.pending.split_off(used);
                self.pending = rest;
                Ok(Some(payload))
            },
            Ok(None) => Ok(None),
            Err(e) => Err(e),
        }
    }

    /// Takes the next whole frame out once the stream has ended.
    ///
    /// As [`FrameDecoder::next_frame`], except that bytes which stop short of
    /// a whole frame fail with `Truncated`. `Ok(None)` means the stream ended
    /// on a frame boundary.
    pub fn next_frame_at_end(&mut self) -> (r: Result<Option<Vec<u8>>, ProtocolError>)
        ensures
            match decode_one(old(self)@) {
                Decoded::Incomplete => {
                    &&& final(self)@ == old(self)@
                    &&& old(self)@.len() == 0 ==> r == Ok::<Option<Vec<u8>>, ProtocolError>(None)
                    &&& old(self)@.len() > 0 ==> r == Err::<Option<Vec<u8>>, ProtocolError>(
                        ProtocolError::Truncated,
                    )
                },
                Decoded::TooLarge => {
                    &&& r == Err::<Option<Vec<u8>>, ProtocolError>(ProtocolError::FrameTooLarge)
                    &&& final(self)@ == old(self)@
                },
                Decoded::Frame { payload, rest } => {
                    &&& r matches Ok(Some(found))
                    &&& found@ == payload
                    &&& final(self)@ == rest
                },
            },
    {
        match self.next_frame() {
            Ok(Some(payload)) => Ok(Some(payload)),
            Ok(None) => {
                if self.pending.len() == 0 {
                    Ok(None)
                } else {
                    Err(ProtocolError::Truncated)
                }
            },
            Err(e) => Err(e),
        }
    }
}

} // verus!
