//! Binary audio frames: one type byte, a big-endian signed 64-bit timestamp
//! in microseconds, then raw PCM.

use vstd::prelude::*;

verus! {

/// Codec of a stream. Only uncompressed PCM is rendered.
#[derive(Clone, Copy, Debug, PartialEq, Eq, Structural)]
pub enum Codec {
    Pcm,
}

/// Format of the active stream.
#[derive(Clone, Copy, Debug, PartialEq, Eq, Structural)]
pub struct StreamFormat {
    pub codec: Codec,
    pub sample_rate: u32,
    pub channels: u8,
    pub bit_depth: u8,
}

/// One timestamped unit of raw audio payload.
#[derive(Debug, Clone, PartialEq, Eq)]
pub struct AudioChunk {
    /// Server-domain timestamp in microseconds.
    pub timestamp: i64,
    /// Raw PCM bytes, a whole number of frames.
    pub payload: Vec<u8>,
}

/// Why a binary frame was dropped.
#[derive(Clone, Copy, Debug, PartialEq, Eq, Structural)]
pub enum FrameError {
    /// Fewer bytes than the header needs.
    TooShort,
    /// The active format has a bit depth other than 16 or 24.
    UnsupportedBitDepth,
    /// The active format has no channels, so no payload is a whole frame.
    NoChannels,
    /// The payload is not a whole number of sample frames.
    Misaligned,
}

/// Length of the header: type byte and timestamp.
pub const FRAME_HEADER_LEN: usize = 9;

/// Value of `bytes` read as an unsigned big-endian number.
pub open spec fn be_unsigned(bytes: Seq<u8>) -> nat
    decreases bytes.len(),
{
    if bytes.len() == 0 {
        0
    } else {
        be_unsigned(bytes.drop_last()) * 256 + bytes.last() as nat
    }
}

/// Value of eight bytes read as a two's-complement big-endian number.
pub open spec fn be_signed64(bytes: Seq<u8>) -> int {
    let u = be_unsigned(bytes) as int;
    if u >= 0x8000_0000_0000_0000 {
        u - 0x1_0000_0000_0000_0000
    } else {
        u
    }
}

/// The `n` low-order bytes of `value`, most significant first.
pub open spec fn be_bytes(value: nat, n: nat) -> Seq<u8>
    decreases n,
{
    if n == 0 {
        Seq::empty()
    } else {
        be_bytes(value / 256, (n - 1) as nat).push((value % 256) as u8)
    }
}

/// The wire image of a frame.
pub open spec fn frame_bytes(kind: u8, timestamp: i64, payload: Seq<u8>) -> Seq<u8> {
    let unsigned: nat = if timestamp < 0 {
        (timestamp + 0x1_0000_0000_0000_0000) as nat
    } else {
        timestamp as nat
    };
    seq![kind] + be_bytes(unsigned, 8) + payload
}

/// Bytes that one sample of the given depth occupies on the wire.
pub open spec fn sample_width(bit_depth: u8) -> Option<usize> {
    if bit_depth == 16 {
        Some(2usize)
    } else if bit_depth == 24 {
        Some(3usize)
    } else {
        None
    }
}

/// Bytes that one sample frame (one sample per channel) occupies, or zero
/// where the format cannot be framed.
pub open spec fn frame_width(format: StreamFormat) -> int {
    match sample_width(format.bit_depth) {
        Some(width) => width as int * format.channels as int,
        None => 0,
    }
}

/// What parsing `data` under `format` yields: the timestamp and the payload,
/// or the reason for dropping the frame.
pub open spec fn parsed_frame(data: Seq<u8>, format: StreamFormat) -> Result<(int, Seq<u8>), FrameError> {
    if data.len() < 9 {
        Err(FrameError::TooShort)
    } else if sample_width(format.bit_depth) is None {
        Err(FrameError::UnsupportedBitDepth)
    } else if format.channels == 0 {
        Err(FrameError::NoChannels)
    } else if (data.len() - 9) % frame_width(format) != 0 {
        Err(FrameError::Misaligned)
    } else {
        Ok((be_signed64(data.subrange(1, 9)), data.subrange(9, data.len() as int)))
    }
}

/// Bytes per sample for a supported bit depth.
pub fn bytes_per_sample(bit_depth: u8) -> (r: Option<usize>)
    ensures
        r == sample_width(bit_depth),
{
    if bit_depth == 16 {
        Some(2)
    } else if bit_depth == 24 {
        Some(3)
    } else {
        None
    }
}

proof fn lemma_be_unsigned_bound(bytes: Seq<u8>)
    requires
        bytes.len() <= 8,
    ensures
        be_unsigned(bytes) < pow256(bytes.len()),
    decreases bytes.len(),
{
    if bytes.len() > 0 {
        lemma_be_unsigned_bound(bytes.drop_last());
    }
}

/// 256 to the power `n`, for `n` up to eight.
pub open spec fn pow256(n: nat) -> nat
    decreases n,
{
    if n == 0 {
        1
    } else {
        256 * pow256((n - 1) as nat)
    }
}

proof fn lemma_pow256_monotone(a: nat, b: nat)
    requires
        a <= b,
    ensures
        pow256(a) <= pow256(b),
        pow256(a) >= 1,
    decreases b,
{
    if a < b {
        lemma_pow256_monotone(a, (b - 1) as nat);
    } else if a > 0 {
        lemma_pow256_monotone((a - 1) as nat, (b - 1) as nat);
    }
}

proof fn lemma_pow256_values()
    ensures
        pow256(0) == 1,
        pow256(1) == 0x100,
        pow256(2) == 0x1_0000,
        pow256(3) == 0x100_0000,
        pow256(4) == 0x1_0000_0000,
        pow256(5) == 0x100_0000_0000,
        pow256(6) == 0x1_0000_0000_0000,
        pow256(7) == 0x100_0000_0000_0000,
        pow256(8) == 0x1_0000_0000_0000_0000,
{
    reveal_with_fuel(pow256, 10);
}

/// Reads the timestamp of a frame that holds a whole header.
pub fn read_timestamp(data: &[u8]) -> (timestamp: i64)
    requires
        data@.len() >= 9,
    ensures
        timestamp == be_signed64(data@.subrange(1, 9)),
{
    let mut acc: u64 = 0;
    let mut i: usize = 0;
    let ghost field = data@.subrange(1, 9);
    proof {
        lemma_pow256_values();
    }
    while i < 8
        invariant
            i <= 8,
            data@.len() >= 9,
            field == data@.subrange(1, 9),
            acc == be_unsigned(field.subrange(0, i as int)),
            acc < pow256(i as nat),
        decreases 8 - i,
    {
        let byte: u8 = data[i + 1];
        proof {
            let prefix = field.subrange(0, i as int + 1);
            assert(prefix.drop_last() =~= field.subrange(0, i as int));
            assert(prefix.last() == byte);
            lemma_be_unsigned_bound(prefix);
            lemma_pow256_values();
            assert(pow256(i as nat + 1) == 256 * pow256(i as nat));
            assert(pow256(i as nat + 1) <= pow256(8)) by {
                lemma_pow256_monotone(i as nat + 1, 8);
            }
            assert(acc * 256 + byte < pow256(i as nat + 1));
        }
        acc = acc * 256 + byte as u64;
        i = i + 1;
    }
    proof {
        assert(field.subrange(0, 8) =~= field);
    }
    if acc >= 0x8000_0000_0000_0000 {
        let low: u64 = acc - 0x8000_0000_0000_0000;
        let low_signed: i64 = low as i64;
        low_signed + i64::MIN
    } else {
        acc as i64
    }
}

/// Parses one binary audio frame under the active stream format.
///
/// The frame is dropped whole when it is shorter than its header, when the
/// format's bit depth is neither 16 nor 24, when the format has no channels,
/// or when the payload is not a whole number of sample frames. The type byte
/// is not interpreted.
pub fn parse_audio_frame(data: &[u8], format: &StreamFormat) -> (r: Result<AudioChunk, FrameError>)
    ensures
        match parsed_frame(data@, *format) {
            Ok((timestamp, payload)) => r matches Ok(chunk) && chunk.timestamp == timestamp
                && chunk.payload@ == payload,
            Err(e) => r matches Err(err) && err == e,
        },
        data@.len() < 9 ==> r matches Err(FrameError::TooShort),
        r matches Ok(chunk) ==> frame_width(*format) > 0 && chunk.payload@.len() as int
            % frame_width(*format) == 0,
{
    if data.len() < FRAME_HEADER_LEN {
        return Err(FrameError::TooShort);
    }
    let width: usize = match bytes_per_sample(format.bit_depth) {
        Some(w) => w,
        None => {
            return Err(FrameError::UnsupportedBitDepth);
        },
    };
    if format.channels == 0 {
        return Err(FrameError::NoChannels);
    }
    assert(width * format.channels <= 3 * 255 && width * format.channels >= 1) by (nonlinear_arith)
        requires
            2 <= width <= 3,
            1 <= format.channels <= 255,
    ;
    let frame_size: usize = width * (format.channels as usize);
    let payload_len: usize = data.len() - FRAME_HEADER_LEN;
    if payload_len % frame_size != 0 {
        return Err(FrameError::Misaligned);
    }
    let timestamp = read_timestamp(data);
    let mut payload: Vec<u8> = Vec::new();
    let mut i: usize = FRAME_HEADER_LEN;
    while i < data.len()
        invariant
            9 <= i <= data@.len(),
            payload@ == data@.subrange(9, i as int),
        decreases data@.len() - i,
    {
        payload.push(data[i]);
        proof {
            assert(payload@ =~= data@.subrange(9, i as int + 1));
        }
        i = i + 1;
    }
    Ok(AudioChunk { timestamp, payload })
}

proof fn lemma_be_bytes_len(value: nat, n: nat)
    ensures
        be_bytes(value, n).len() == n,
    decreases n,
{
    if n > 0 {
        lemma_be_bytes_len(value / 256, (n - 1) as nat);
    }
}

proof fn lemma_be_round_trip(value: nat, n: nat)
    requires
        value < pow256(n),
    ensures
        be_unsigned(be_bytes(value, n)) == value,
    decreases n,
{
    if n > 0 {
        let rest = be_bytes(value / 256, (n - 1) as nat);
        assert(value / 256 < pow256((n - 1) as nat)) by (nonlinear_arith)
            requires
                value < 256 * pow256((n - 1) as nat),
        ;
        lemma_be_round_trip(value / 256, (n - 1) as nat);
        lemma_be_bytes_len(value / 256, (n - 1) as nat);
        let all = be_bytes(value, n);
        assert(all.drop_last() =~= rest);
        assert(all.last() == (value % 256) as u8);
        assert((value / 256) * 256 + value % 256 == value) by (nonlinear_arith);
    }
}

/// A frame built from a type byte, a timestamp and a payload that is a whole
/// number of sample frames parses back to that timestamp and that payload,
/// whatever the type byte.
pub proof fn lemma_frame_round_trip(kind: u8, timestamp: i64, payload: Seq<u8>, format: StreamFormat)
    requires
        sample_width(format.bit_depth) is Some,
        format.channels > 0,
        payload.len() as int % frame_width(format) == 0,
    ensures
        parsed_frame(frame_bytes(kind, timestamp, payload), format) == Ok::<
            (int, Seq<u8>),
            FrameError,
        >((timestamp as int, payload)),
{
    let unsigned: nat = if timestamp < 0 {
        (timestamp + 0x1_0000_0000_0000_0000) as nat
    } else {
        timestamp as nat
    };
    let data = frame_bytes(kind, timestamp, payload);
    lemma_pow256_values();
    lemma_be_bytes_len(unsigned, 8);
    lemma_be_round_trip(unsigned, 8);
    assert(data.subrange(1, 9) =~= be_bytes(unsigned, 8));
    assert(data.subrange(9, data.len() as int) =~= payload);
    assert(data.len() - 9 == payload.len());
}

/// No input shorter than the header parses, under any format.
pub proof fn lemma_short_frame_rejected(data: Seq<u8>, format: StreamFormat)
    requires
        data.len() < 9,
    ensures
        parsed_frame(data, format) == Err::<(int, Seq<u8>), FrameError>(FrameError::TooShort),
{
}

/// A payload that is not a whole number of sample frames never parses.
pub proof fn lemma_misaligned_frame_rejected(data: Seq<u8>, format: StreamFormat)
    requires
        data.len() >= 9,
        sample_width(format.bit_depth) is Some,
        format.channels > 0,
        (data.len() - 9) % frame_width(format) != 0,
    ensures
        parsed_frame(data, format) == Err::<(int, Seq<u8>), FrameError>(FrameError::Misaligned),
{
}

} // verus!
