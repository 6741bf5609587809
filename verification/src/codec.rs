//! Sample codec: a fixed-format binary audio container for 16-bit PCM.
//!
//! A `SampleBuffer` (quantized 16-bit samples tagged with channel count and
//! sample rate) is serialized into a self-describing byte container: a RIFF
//! header whose fields exactly describe the payload, followed by the samples
//! in little-endian order. `decode` accepts exactly the containers that
//! `encode` produces and reports a `FormatError` for everything else, so a
//! round trip through the container is lossless.

use vstd::prelude::*;
use vstd::arithmetic::div_mod::{
    lemma_fundamental_div_mod, lemma_fundamental_div_mod_converse_div, lemma_mod_multiples_basic,
};

verus! {

/// Why a byte sequence is not a well-formed audio container.
#[derive(Clone, Copy, Debug, PartialEq, Eq, Structural)]
pub enum FormatError {
    /// Fewer bytes than one header.
    TooShort,
    /// One of the four chunk tags is wrong.
    BadMagic,
    /// The format chunk does not declare uncompressed integer PCM.
    UnsupportedEncoding,
    /// The declared bit depth is not 16.
    BadBitDepth,
    /// The header fields are internally inconsistent (zero channels or rate,
    /// wrong byte rate, block alignment or overall size).
    BadHeaderField,
    /// The declared payload size disagrees with the bytes actually present.
    LengthMismatch,
    /// The payload is not a whole number of frames.
    MisalignedPayload,
}

/// A quantized sample stream: interleaved 16-bit samples, the channel count
/// and the sample rate of the stream they were captured from.
#[derive(Clone, Debug, PartialEq, Eq)]
pub struct SampleBuffer {
    pub samples: Vec<i16>,
    pub channels: u16,
    pub sample_rate: u32,
}

/// The conditions under which a sample stream can be described by a header:
/// at least one channel (few enough that a frame size fits the header field),
/// a positive rate, whole frames only, and sizes that fit the 32-bit header
/// fields.
pub open spec fn describable(samples: Seq<i16>, channels: u16, rate: u32) -> bool {
    &&& 1 <= channels <= 0x7fff
    &&& 1 <= rate
    &&& samples.len() % (channels as nat) == 0
    &&& 36 + 2 * samples.len() <= u32::MAX
    &&& 2 * (rate as int) * (channels as int) <= u32::MAX
}

impl SampleBuffer {
    /// The buffer can be encoded into a container.
    pub open spec fn wf(&self) -> bool {
        describable(self.samples@, self.channels, self.sample_rate)
    }
}

// ---------------------------------------------------------------------------
// Little-endian views of the byte sequence
// ---------------------------------------------------------------------------

/// The two bytes of `v` (`0 <= v < 2^16`), least significant first.
pub open spec fn u16_le(v: int) -> Seq<u8> {
    seq![(v % 256) as u8, ((v / 256) % 256) as u8]
}

/// The four bytes of `v` (`0 <= v < 2^32`), least significant first.
pub open spec fn u32_le(v: int) -> Seq<u8> {
    u16_le(v % 0x10000) + u16_le(v / 0x10000)
}

/// The value of the two bytes at `i`, read little-endian.
pub open spec fn le16(b: Seq<u8>, i: int) -> int {
    b[i] + 256 * b[i + 1]
}

/// The value of the four bytes at `i`, read little-endian.
pub open spec fn le32(b: Seq<u8>, i: int) -> int {
    le16(b, i) + 0x10000 * le16(b, i + 2)
}

proof fn lemma_le16_of_u16_le(v: int)
    requires
        0 <= v < 0x10000,
    ensures
        le16(u16_le(v), 0) == v,
{
    lemma_fundamental_div_mod(v, 256);
}

proof fn lemma_le32_of_u32_le(v: int)
    requires
        0 <= v < 0x1_0000_0000,
    ensures
        le32(u32_le(v), 0) == v,
{
    lemma_le16_of_u16_le(v % 0x10000);
    lemma_le16_of_u16_le(v / 0x10000);
    lemma_fundamental_div_mod(v, 0x10000);
}

// ---------------------------------------------------------------------------
// Samples as bytes
// ---------------------------------------------------------------------------

/// A 16-bit sample reinterpreted as its unsigned two's-complement value.
pub open spec fn sample_to_unsigned(s: i16) -> int {
    if s >= 0 {
        s as int
    } else {
        s as int + 0x10000
    }
}

/// The inverse reinterpretation: an unsigned 16-bit value as a signed sample.
pub open spec fn unsigned_to_sample(v: int) -> int {
    if v < 0x8000 {
        v
    } else {
        v - 0x10000
    }
}

/// The two payload bytes of one sample.
pub open spec fn sample_bytes(s: i16) -> Seq<u8> {
    u16_le(sample_to_unsigned(s))
}

/// The payload: every sample in order, two bytes each.
pub open spec fn payload_bytes(samples: Seq<i16>) -> Seq<u8>
    decreases samples.len(),
{
    if samples.len() == 0 {
        Seq::empty()
    } else {
        payload_bytes(samples.drop_last()) + sample_bytes(samples.last())
    }
}

proof fn lemma_payload_len(samples: Seq<i16>)
    ensures
        payload_bytes(samples).len() == 2 * samples.len(),
    decreases samples.len(),
{
    if samples.len() > 0 {
        lemma_payload_len(samples.drop_last());
    }
}

/// Reading the payload back at sample `i` yields sample `i`'s unsigned value.
proof fn lemma_payload_at(samples: Seq<i16>, i: int)
    requires
        0 <= i < samples.len(),
    ensures
        le16(payload_bytes(samples), 2 * i) == sample_to_unsigned(samples[i]),
    decreases samples.len(),
{
    lemma_payload_len(samples.drop_last());
    if i == samples.len() - 1 {
        lemma_le16_of_u16_le(sample_to_unsigned(samples[i]));
    } else {
        lemma_payload_at(samples.drop_last(), i);
    }
}

// ---------------------------------------------------------------------------
// The container format
// ---------------------------------------------------------------------------

/// The 44-byte header describing `n` samples over `channels` channels at
/// `rate` frames per second: the RIFF chunk, the format chunk declaring
/// 16-bit integer PCM, and the data chunk's tag and size.
pub open spec fn header_bytes(n: int, channels: int, rate: int) -> Seq<u8> {
    seq![0x52u8, 0x49u8, 0x46u8, 0x46u8] + u32_le(36 + 2 * n) + seq![
        0x57u8,
        0x41u8,
        0x56u8,
        0x45u8,
    ] + seq![0x66u8, 0x6du8, 0x74u8, 0x20u8] + u32_le(16) + u16_le(1) + u16_le(channels) + u32_le(
        rate,
    ) + u32_le(2 * rate * channels) + u16_le(2 * channels) + u16_le(16) + seq![
        0x64u8,
        0x61u8,
        0x74u8,
        0x61u8,
    ] + u32_le(2 * n)
}

/// The whole container: header, then payload.
pub open spec fn encode_spec(samples: Seq<i16>, channels: u16, rate: u32) -> Seq<u8> {
    header_bytes(samples.len() as int, channels as int, rate as int) + payload_bytes(samples)
}

/// The four chunk tags stand where the header puts them.
pub open spec fn magic_ok(b: Seq<u8>) -> bool {
    &&& b[0] == 0x52 && b[1] == 0x49 && b[2] == 0x46 && b[3] == 0x46
    &&& b[8] == 0x57 && b[9] == 0x41 && b[10] == 0x56 && b[11] == 0x45
    &&& b[12] == 0x66 && b[13] == 0x6d && b[14] == 0x74 && b[15] == 0x20
    &&& b[36] == 0x64 && b[37] == 0x61 && b[38] == 0x74 && b[39] == 0x61
}

/// The samples a container's payload holds.
pub open spec fn decoded_samples(b: Seq<u8>) -> Seq<i16> {
    Seq::new(((b.len() - 44) / 2) as nat, |i: int| unsigned_to_sample(le16(b, 44 + 2 * i)) as i16)
}

/// What decoding a byte sequence yields: either the sample stream with its
/// channel count and rate, or the first reason the sequence is rejected.
pub open spec fn decode_spec(b: Seq<u8>) -> Result<(Seq<i16>, u16, u32), FormatError> {
    let channels = le16(b, 22);
    let rate = le32(b, 24);
    if b.len() < 44 {
        Err(FormatError::TooShort)
    } else if !magic_ok(b) {
        Err(FormatError::BadMagic)
    } else if le32(b, 16) != 16 || le16(b, 20) != 1 {
        Err(FormatError::UnsupportedEncoding)
    } else if le16(b, 34) != 16 {
        Err(FormatError::BadBitDepth)
    } else if channels == 0 || channels > 0x7fff || rate == 0 || le32(b, 28) != 2 * rate * channels
        || le16(b, 32) != 2 * channels || le32(b, 4) != b.len() - 8 {
        Err(FormatError::BadHeaderField)
    } else if le32(b, 40) != b.len() - 44 {
        Err(FormatError::LengthMismatch)
    } else if (b.len() - 44) % (2 * channels) != 0 {
        Err(FormatError::MisalignedPayload)
    } else {
        Ok((decoded_samples(b), channels as u16, rate as u32))
    }
}

// ---------------------------------------------------------------------------
// Executable encoding
// ---------------------------------------------------------------------------

fn push_u16(r: &mut Vec<u8>, x: u16)
    ensures
        final(r)@ == old(r)@ + u16_le(x as int),
{
    r.push((x % 256) as u8);
    r.push((x / 256) as u8);
    proof {
        assert(r@ =~= old(r)@ + u16_le(x as int));
    }
}

fn push_u32(r: &mut Vec<u8>, x: u32)
    ensures
        final(r)@ == old(r)@ + u32_le(x as int),
{
    push_u16(r, (x % 0x10000) as u16);
    push_u16(r, (x / 0x10000) as u16);
    proof {
        assert(r@ =~= old(r)@ + u32_le(x as int));
    }
}

fn push_sample(r: &mut Vec<u8>, s: i16)
    ensures
        final(r)@ == old(r)@ + sample_bytes(s),
{
    let v: u32 = if s >= 0 {
        s as u32
    } else {
        (s as i32 + 0x10000) as u32
    };
    proof {
        assert(v == sample_to_unsigned(s));
    }
    push_u16(r, v as u16);
}

/// Append the 44 header bytes for `n` samples over `channels` channels at
/// `rate` frames per second.
#[verifier::rlimit(100)]
fn write_header(r: &mut Vec<u8>, n: usize, channels: u16, rate: u32)
    requires
        1 <= channels <= 0x7fff,
        1 <= rate,
        36 + 2 * n <= u32::MAX,
        2 * (rate as int) * (channels as int) <= u32::MAX,
    ensures
        final(r)@ == old(r)@ + header_bytes(n as int, channels as int, rate as int),
{
    let data_len: u32 = 2 * (n as u32);
    let byte_rate: u32 = ((2 * (rate as u64)) * (channels as u64)) as u32;
    r.push(0x52);
    r.push(0x49);
    r.push(0x46);
    r.push(0x46);
    push_u32(r, 36 + data_len);
    r.push(0x57);
    r.push(0x41);
    r.push(0x56);
    r.push(0x45);
    r.push(0x66);
    r.push(0x6d);
    r.push(0x74);
    r.push(0x20);
    push_u32(r, 16);
    push_u16(r, 1);
    push_u16(r, channels);
    push_u32(r, rate);
    push_u32(r, byte_rate);
    push_u16(r, 2 * channels);
    push_u16(r, 16);
    r.push(0x64);
    r.push(0x61);
    r.push(0x74);
    r.push(0x61);
    push_u32(r, data_len);
    proof {
        assert(r@ =~= old(r)@ + header_bytes(n as int, channels as int, rate as int));
    }
}

/// Serialize a well-formed buffer into its container.
pub fn encode(buf: &SampleBuffer) -> (r: Vec<u8>)
    requires
        buf.wf(),
    ensures
        r@ == encode_spec(buf.samples@, buf.channels, buf.sample_rate),
        r@.len() == 44 + 2 * buf.samples@.len(),
{
    let n: usize = buf.samples.len();
    let mut r: Vec<u8> = Vec::new();
    write_header(&mut r, n, buf.channels, buf.sample_rate);
    proof {
        assert(r@ =~= header_bytes(n as int, buf.channels as int, buf.sample_rate as int));
        assert(buf.samples@.take(0) =~= Seq::<i16>::empty());
    }
    let ghost header = r@;
    for i in 0..n
        invariant
            n == buf.samples@.len(),
            header == header_bytes(n as int, buf.channels as int, buf.sample_rate as int),
            r@ == header + payload_bytes(buf.samples@.take(i as int)),
    {
        push_sample(&mut r, buf.samples[i]);
        proof {
            assert(buf.samples@.take(i + 1).drop_last() =~= buf.samples@.take(i as int));
            assert(buf.samples@.take(i + 1).last() == buf.samples@[i as int]);
        }
    }
    proof {
        assert(buf.samples@.take(n as int) =~= buf.samples@);
        lemma_payload_len(buf.samples@);
    }
    r
}

// ---------------------------------------------------------------------------
// Executable decoding
// ---------------------------------------------------------------------------

fn read_u16(b: &Vec<u8>, i: usize) -> (r: u16)
    requires
        i + 2 <= b@.len(),
        b@.len() <= usize::MAX,
    ensures
        r as int == le16(b@, i as int),
{
    (b[i] as u16) + 256 * (b[i + 1] as u16)
}

fn read_u32(b: &Vec<u8>, i: usize) -> (r: u32)
    requires
        i + 4 <= b@.len(),
        b@.len() <= usize::MAX,
    ensures
        r as int == le32(b@, i as int),
{
    (read_u16(b, i) as u32) + 0x10000 * (read_u16(b, i + 2) as u32)
}

fn sample_from_bytes(lo: u8, hi: u8) -> (s: i16)
    ensures
        s as int == unsigned_to_sample(lo + 256 * hi),
{
    let v: u32 = (lo as u32) + 256 * (hi as u32);
    if v < 0x8000 {
        v as i16
    } else {
        #[verifier::truncate] ((v as i32 - 0x10000) as i16)
    }
}

/// Parse a container back into the buffer it describes, or report the first
/// reason it is malformed. Exactly the containers `encode` produces are
/// accepted; in particular a declared payload size that disagrees with the
/// bytes present is a `LengthMismatch`, never a truncation.
pub fn decode(bytes: &Vec<u8>) -> (r: Result<SampleBuffer, FormatError>)
    ensures
        match r {
            Ok(buf) => decode_spec(bytes@) == Ok::<_, FormatError>(
                (buf.samples@, buf.channels, buf.sample_rate),
            ) && buf.wf(),
            Err(e) => decode_spec(bytes@) == Err::<(Seq<i16>, u16, u32), _>(e),
        },
{
    let len: usize = bytes.len();
    if len < 44 {
        return Err(FormatError::TooShort);
    }
    let magic: bool = bytes[0] == 0x52 && bytes[1] == 0x49 && bytes[2] == 0x46 && bytes[3] == 0x46
        && bytes[8] == 0x57 && bytes[9] == 0x41 && bytes[10] == 0x56 && bytes[11] == 0x45
        && bytes[12] == 0x66 && bytes[13] == 0x6d && bytes[14] == 0x74 && bytes[15] == 0x20
        && bytes[36] == 0x64 && bytes[37] == 0x61 && bytes[38] == 0x74 && bytes[39] == 0x61;
    if !magic {
        return Err(FormatError::BadMagic);
    }
    if read_u32(bytes, 16) != 16 || read_u16(bytes, 20) != 1 {
        return Err(FormatError::UnsupportedEncoding);
    }
    if read_u16(bytes, 34) != 16 {
        return Err(FormatError::BadBitDepth);
    }
    let channels: u16 = read_u16(bytes, 22);
    let rate: u32 = read_u32(bytes, 24);
    let byte_rate: u32 = read_u32(bytes, 28);
    let block_align: u16 = read_u16(bytes, 32);
    let riff_size: u32 = read_u32(bytes, 4);
    proof {
        assert((2 * (rate as int)) * (channels as int) < 0x2_0000_0000_0000) by (nonlinear_arith)
            requires
                0 <= (rate as int) < 0x1_0000_0000,
                0 <= (channels as int) < 0x10000,
        ;
    }
    let expected_byte_rate: u64 = (2 * (rate as u64)) * (channels as u64);
    if channels == 0 || channels > 0x7fff || rate == 0 || byte_rate as u64 != expected_byte_rate
        || block_align as u32 != 2 * (channels as u32) || riff_size as u64 != len as u64 - 8 {
        return Err(FormatError::BadHeaderField);
    }
    let data_len: u32 = read_u32(bytes, 40);
    if data_len as u64 != len as u64 - 44 {
        return Err(FormatError::LengthMismatch);
    }
    if (len - 44) % (2 * (channels as usize)) != 0 {
        return Err(FormatError::MisalignedPayload);
    }
    let n_samples: usize = (len - 44) / 2;
    let mut samples: Vec<i16> = Vec::new();
    for i in 0..n_samples
        invariant
            len == bytes@.len(),
            44 + 2 * n_samples <= len,
            samples@.len() == i,
            forall|k: int|
                0 <= k < i ==> samples@[k] as int == unsigned_to_sample(le16(bytes@, 44 + 2 * k)),
    {
        let lo: u8 = bytes[44 + 2 * i];
        let hi: u8 = bytes[45 + 2 * i];
        samples.push(sample_from_bytes(lo, hi));
    }
    proof {
        assert(samples@ =~= decoded_samples(bytes@));
        lemma_frame_divisibility(len - 44, channels as int);
    }
    Ok(SampleBuffer { samples, channels, sample_rate: rate })
}

/// If a byte count is a whole number of frames, the sample count is a whole
/// number of frames too.
proof fn lemma_frame_divisibility(bytes_len: int, channels: int)
    requires
        1 <= channels,
        bytes_len >= 0,
        bytes_len % (2 * channels) == 0,
    ensures
        (bytes_len / 2) % channels == 0,
{
    let k = bytes_len / (2 * channels);
    lemma_fundamental_div_mod(bytes_len, 2 * channels);
    assert(bytes_len == (2 * channels) * k);
    assert(bytes_len == (channels * k) * 2 + 0) by (nonlinear_arith)
        requires
            bytes_len == (2 * channels) * k,
    ;
    lemma_fundamental_div_mod_converse_div(bytes_len, 2, channels * k, 0);
    assert(bytes_len / 2 == channels * k);
    lemma_mod_multiples_basic(k, channels);
    assert(channels * k == k * channels) by (nonlinear_arith);
}

// ---------------------------------------------------------------------------
// Round trip
// ---------------------------------------------------------------------------

/// Every field of the header reads back as what it was built from.
#[verifier::rlimit(100)]
proof fn lemma_header_fields(n: int, channels: int, rate: int)
    requires
        0 <= n,
        36 + 2 * n <= u32::MAX,
        1 <= channels <= 0x7fff,
        1 <= rate < 0x1_0000_0000,
        2 * rate * channels <= u32::MAX,
    ensures
        header_bytes(n, channels, rate).len() == 44,
        magic_ok(header_bytes(n, channels, rate)),
        le32(header_bytes(n, channels, rate), 4) == 36 + 2 * n,
        le32(header_bytes(n, channels, rate), 16) == 16,
        le16(header_bytes(n, channels, rate), 20) == 1,
        le16(header_bytes(n, channels, rate), 22) == channels,
        le32(header_bytes(n, channels, rate), 24) == rate,
        le32(header_bytes(n, channels, rate), 28) == 2 * rate * channels,
        le16(header_bytes(n, channels, rate), 32) == 2 * channels,
        le16(header_bytes(n, channels, rate), 34) == 16,
        le32(header_bytes(n, channels, rate), 40) == 2 * n,
{
    lemma_le32_of_u32_le(36 + 2 * n);
    lemma_le32_of_u32_le(16);
    lemma_le16_of_u16_le(1);
    lemma_le16_of_u16_le(channels);
    lemma_le32_of_u32_le(rate);
    lemma_le32_of_u32_le(2 * rate * channels);
    lemma_le16_of_u16_le(2 * channels);
    lemma_le16_of_u16_le(16);
    lemma_le32_of_u32_le(2 * n);
}

/// Round-trip law: decoding what `encode` produced yields exactly the
/// samples, channel count and rate that went in — the container loses
/// nothing and invents nothing.
#[verifier::rlimit(100)]
pub proof fn lemma_round_trip(samples: Seq<i16>, channels: u16, rate: u32)
    requires
        describable(samples, channels, rate),
    ensures
        decode_spec(encode_spec(samples, channels, rate)) == Ok::<_, FormatError>(
            (samples, channels, rate),
        ),
{
    let n: int = samples.len() as int;
    let b = encode_spec(samples, channels, rate);
    let h = header_bytes(n, channels as int, rate as int);
    lemma_payload_len(samples);
    lemma_header_fields(n, channels as int, rate as int);
    assert(b.len() == 44 + 2 * n);
    assert forall|k: int| 0 <= k < 44 implies b[k] == h[k] by {}
    assert(le16(b, 22) == channels as int);
    assert(le32(b, 24) == rate as int);
    assert(magic_ok(b));
    assert(le32(b, 16) == 16 && le16(b, 20) == 1);
    assert(le16(b, 34) == 16);
    assert(le32(b, 28) == 2 * (rate as int) * (channels as int));
    assert(le16(b, 32) == 2 * (channels as int));
    assert(le32(b, 4) == b.len() - 8);
    assert(le32(b, 40) == b.len() - 44);
    assert((b.len() - 44) % (2 * (channels as int)) == 0) by {
        lemma_mod_multiples_basic(n / (channels as int), 2 * (channels as int));
        lemma_fundamental_div_mod(n, channels as int);
        assert(n == (channels as int) * (n / (channels as int)));
        assert(2 * n == (n / (channels as int)) * (2 * (channels as int))) by (nonlinear_arith)
            requires
                n == (channels as int) * (n / (channels as int)),
        ;
    }
    assert(decoded_samples(b) =~= samples) by {
        assert forall|i: int| 0 <= i < n implies decoded_samples(b)[i] == samples[i] by {
            lemma_payload_at(samples, i);
            assert(le16(b, 44 + 2 * i) == le16(payload_bytes(samples), 2 * i));
        }
    }
}

/// Header-validation law: whatever else a byte sequence looks like, if its
/// declared payload size does not match the bytes present, decoding rejects
/// it with a `FormatError` — it is never silently truncated.
pub proof fn lemma_header_validation(b: Seq<u8>)
    requires
        b.len() >= 44,
        le32(b, 40) != b.len() - 44,
    ensures
        decode_spec(b) is Err,
{
}

} // verus!
