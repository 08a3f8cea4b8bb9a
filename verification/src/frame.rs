//! The framing of protocol messages on a byte stream: each message is sent
//! as the length of its payload, four bytes little-endian, followed by the
//! payload itself.

use vstd::prelude::*;

verus! {

/// The four little-endian bytes of `n`.
pub open spec fn length_prefix(n: u32) -> Seq<u8> {
    seq![
        (n % 256) as u8,
        ((n / 256) % 256) as u8,
        ((n / 65536) % 256) as u8,
        (n / 16777216) as u8,
    ]
}

/// The number that the first four bytes of `b` give, read little-endian.
pub open spec fn read_length(b: Seq<u8>) -> nat
    recommends
        b.len() >= 4,
{
    (b[0] + 256 * b[1] + 65536 * b[2] + 16777216 * b[3]) as nat
}

/// The frame that carries `payload`.
pub open spec fn frame_of(payload: Seq<u8>) -> Seq<u8> {
    length_prefix(payload.len() as u32) + payload
}

/// What the start of a byte stream holds.
pub enum FrameModel {
    /// No byte at all: the stream ended between two frames.
    Empty,
    /// The start of a frame whose remaining bytes are missing.
    Incomplete,
    /// A whole frame, with its payload and the number of bytes it takes.
    Complete { payload: Seq<u8>, consumed: nat },
}

/// What the start of `buffer` holds.
pub open spec fn decode_model(buffer: Seq<u8>) -> FrameModel {
    if buffer.len() == 0 {
        FrameModel::Empty
    } else if buffer.len() < 4 {
        FrameModel::Incomplete
    } else {
        let end = 4 + read_length(buffer);
        if buffer.len() < end {
            FrameModel::Incomplete
        } else {
            FrameModel::Complete { payload: buffer.subrange(4, end as int), consumed: end }
        }
    }
}

/// What the start of a byte stream holds.
#[derive(Clone, Debug, PartialEq, Eq)]
pub enum DecodedFrame {
    /// No byte at all: the stream ended between two frames.
    Empty,
    /// The start of a frame whose remaining bytes are missing.
    Incomplete,
    /// A whole frame, with its payload and the number of bytes it takes.
    Complete { payload: Vec<u8>, consumed: usize },
}

impl View for DecodedFrame {
    type V = FrameModel;

    open spec fn view(&self) -> FrameModel {
        match self {
            DecodedFrame::Empty => FrameModel::Empty,
            DecodedFrame::Incomplete => FrameModel::Incomplete,
            DecodedFrame::Complete { payload, consumed } => FrameModel::Complete {
                payload: payload@,
                consumed: *consumed as nat,
            },
        }
    }
}

proof fn lemma_prefix_bytes(n: u32)
    ensures
        (n & 0xff) as u8 == (n % 256) as u8,
        ((n >> 8) & 0xff) as u8 == ((n / 256) % 256) as u8,
        ((n >> 16) & 0xff) as u8 == ((n / 65536) % 256) as u8,
        (n >> 24) as u8 == (n / 16777216) as u8,
{
    assert((n & 0xff) == n % 256) by (bit_vector);
    assert(((n >> 8) & 0xff) == (n / 256) % 256) by (bit_vector);
    assert(((n >> 16) & 0xff) == (n / 65536) % 256) by (bit_vector);
    assert((n >> 24) == n / 16777216) by (bit_vector);
}

/// Reading back the prefix of `n` gives `n`.
pub proof fn lemma_read_length_of_prefix(n: u32)
    ensures
        read_length(length_prefix(n)) == n,
{
    let p = length_prefix(n);
    assert(n % 256 + 256 * ((n / 256) % 256) + 65536 * ((n / 65536) % 256) + 16777216 * (n
        / 16777216) == n) by (nonlinear_arith);
    assert(p[0] == n % 256);
    assert(p[1] == (n / 256) % 256);
    assert(p[2] == (n / 65536) % 256);
    assert(n / 16777216 < 256) by (nonlinear_arith);
    assert(p[3] == n / 16777216);
}

/// The frame that carries `payload`.
pub fn encode_frame(payload: &[u8]) -> (frame: Vec<u8>)
    requires
        payload@.len() <= u32::MAX,
    ensures
        frame@ == frame_of(payload@),
{
    let n = payload.len() as u32;
    proof {
        lemma_prefix_bytes(n);
    }
    let mut frame: Vec<u8> = Vec::new();
    frame.push((n & 0xff) as u8);
    frame.push(((n >> 8) & 0xff) as u8);
    frame.push(((n >> 16) & 0xff) as u8);
    frame.push((n >> 24) as u8);
    let ghost prefix = frame@;
    assert(prefix =~= length_prefix(n));
    let len = payload.len();
    for i in 0..len
        invariant
            len == payload@.len(),
            frame@ == prefix + payload@.subrange(0, i as int),
    {
        frame.push(payload[i]);
        assert(payload@.subrange(0, i + 1) =~= payload@.subrange(0, i as int).push(payload@[i as int]));
    }
    assert(payload@.subrange(0, len as int) =~= payload@);
    frame
}

/// The payload length that a frame's four-byte header announces.
pub fn payload_length(header: &[u8]) -> (n: u32)
    requires
        header@.len() == 4,
    ensures
        n == read_length(header@),
{
    let n: u64 = header[0] as u64 + 256 * (header[1] as u64) + 65536 * (header[2] as u64)
        + 16777216 * (header[3] as u64);
    n as u32
}

/// What the start of `buffer` holds: nothing, part of a frame, or a whole
/// frame whose payload is returned.
pub fn decode_frame(buffer: &[u8]) -> (decoded: DecodedFrame)
    ensures
        decoded@ == decode_model(buffer@),
{
    let len = buffer.len();
    if len == 0 {
        return DecodedFrame::Empty;
    }
    if len < 4 {
        return DecodedFrame::Incomplete;
    }
    let n: u64 = buffer[0] as u64 + 256 * (buffer[1] as u64) + 65536 * (buffer[2] as u64)
        + 16777216 * (buffer[3] as u64);
    let end: u64 = 4 + n;
    if (len as u64) < end {
        return DecodedFrame::Incomplete;
    }
    let end = end as usize;
    let mut payload: Vec<u8> = Vec::new();
    let mut i: usize = 4;
    while i < end
        invariant
            4 <= i <= end <= buffer@.len(),
            end == 4 + read_length(buffer@),
            payload@ == buffer@.subrange(4, i as int),
        decreases end - i,
    {
        payload.push(buffer[i]);
        assert(buffer@.subrange(4, i + 1) =~= buffer@.subrange(4, i as int).push(buffer@[i as int]));
        i = i + 1;
    }
    DecodedFrame::Complete { payload, consumed: end }
}

/// Decoding what `encode_frame` wrote, followed by anything, gives back the
/// payload and the frame's length.
pub proof fn law_decode_reads_back_encode(payload: Seq<u8>, rest: Seq<u8>)
    requires
        payload.len() <= u32::MAX,
    ensures
        decode_model(frame_of(payload) + rest) == (FrameModel::Complete {
            payload,
            consumed: 4 + payload.len(),
        }),
{
    let buffer = frame_of(payload) + rest;
    lemma_read_length_of_prefix(payload.len() as u32);
    assert(buffer.subrange(0, 4) =~= length_prefix(payload.len() as u32));
    assert(read_length(buffer) == read_length(length_prefix(payload.len() as u32)));
    assert(buffer.subrange(4, 4 + payload.len() as int) =~= payload);
}

/// What decoding finds, in terms of the buffer: nothing exactly when the
/// buffer is empty; a whole frame exactly when the buffer holds a header and
/// every payload byte it announces, the payload then being those bytes and
/// the frame taking the header and the payload; and otherwise, when the
/// buffer holds some bytes but not all that a frame needs, an incomplete
/// frame.
pub proof fn law_decode_finds_whole_frames_only(buffer: Seq<u8>)
    ensures
        decode_model(buffer) is Empty <==> buffer.len() == 0,
        decode_model(buffer) is Complete <==> (buffer.len() >= 4 && buffer.len() >= 4
            + read_length(buffer)),
        decode_model(buffer) matches FrameModel::Complete { payload, consumed } ==> {
            &&& consumed == 4 + read_length(buffer)
            &&& consumed <= buffer.len()
            &&& payload.len() == read_length(buffer)
            &&& forall|i: int| 0 <= i < payload.len() ==> payload[i] == buffer[4 + i]
        },
        buffer.len() > 0 && (buffer.len() < 4 || buffer.len() < 4 + read_length(buffer))
            ==> decode_model(buffer) is Incomplete,
{
}

/// Every non-empty part of a frame short of its last byte decodes as
/// incomplete: a frame is never taken before all its bytes have arrived.
pub proof fn law_partial_frame_is_incomplete(payload: Seq<u8>, n: int)
    requires
        payload.len() <= u32::MAX,
        0 < n < frame_of(payload).len(),
    ensures
        decode_model(frame_of(payload).take(n)) is Incomplete,
{
    let b = frame_of(payload).take(n);
    if n >= 4 {
        lemma_read_length_of_prefix(payload.len() as u32);
        assert(b.subrange(0, 4) =~= length_prefix(payload.len() as u32));
        assert(read_length(b) == read_length(length_prefix(payload.len() as u32)));
    }
}

} // verus!
