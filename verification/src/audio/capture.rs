//! Capture-side bookkeeping: the ring buffer size and the decoding of the
//! little-endian PCM packets a capture device delivers.
use vstd::prelude::*;

verus! {

/// Samples the capture ring buffer holds: 200 ms of audio.
pub fn ring_buffer_capacity(sample_rate: u32, channels: u16) -> (r: usize)
    requires
        sample_rate * channels <= usize::MAX,
    ensures
        r == (sample_rate * channels) / 5,
{
    (sample_rate as usize) * (channels as usize) / 5
}

/// Bytes a read buffer needs for `frames` frames of `block_align` bytes.
pub fn packet_bytes(frames: u32, block_align: u32) -> (r: usize)
    requires
        frames * block_align <= usize::MAX,
    ensures
        r == frames * block_align,
{
    (frames as usize) * (block_align as usize)
}

/// Raw sample values decoded from a packet; the caller scales them to
/// floating point.
#[derive(Debug)]
pub enum DecodedSamples {
    /// 16-bit signed samples.
    Pcm16(Vec<i16>),
    /// 24-bit signed samples, sign-extended.
    Pcm24(Vec<i32>),
    /// Bit patterns of 32-bit floating point samples.
    Float32(Vec<u32>),
    /// No decoder for this bit depth.
    Unsupported,
}

/// The little-endian 16-bit two's complement value of `lo`, `hi`.
pub open spec fn pcm16_value(lo: u8, hi: u8) -> int {
    let u = lo + 256 * hi;
    if u >= 0x8000 {
        u - 0x10000
    } else {
        u
    }
}

/// The little-endian 24-bit two's complement value of `b0`, `b1`, `b2`.
pub open spec fn pcm24_value(b0: u8, b1: u8, b2: u8) -> int {
    let u = b0 + 256 * b1 + 65536 * b2;
    if u >= 0x80_0000 {
        u - 0x100_0000
    } else {
        u
    }
}

/// The little-endian 32-bit pattern of `b0 .. b3`.
pub open spec fn word32_value(b0: u8, b1: u8, b2: u8, b3: u8) -> int {
    b0 + 256 * b1 + 65536 * b2 + 16777216 * b3
}

/// Decodes the whole groups of `data`; trailing bytes that do not fill a
/// group are ignored. Supported depths are 16, 24 and 32 bits.
pub fn decode_samples(data: &[u8], bits_per_sample: u16) -> (r: DecodedSamples)
    ensures
        bits_per_sample == 16 ==> (r matches DecodedSamples::Pcm16(v) && v@.len() == data@.len()
            / 2 && forall|i: int|
            0 <= i < v@.len() ==> #[trigger] v@[i] == pcm16_value(data@[2 * i], data@[2 * i + 1])),
        bits_per_sample == 24 ==> (r matches DecodedSamples::Pcm24(v) && v@.len() == data@.len()
            / 3 && forall|i: int|
            0 <= i < v@.len() ==> #[trigger] v@[i] == pcm24_value(
                data@[3 * i],
                data@[3 * i + 1],
                data@[3 * i + 2],
            )),
        bits_per_sample == 32 ==> (r matches DecodedSamples::Float32(v) && v@.len() == data@.len()
            / 4 && forall|i: int|
            0 <= i < v@.len() ==> #[trigger] v@[i] == word32_value(
                data@[4 * i],
                data@[4 * i + 1],
                data@[4 * i + 2],
                data@[4 * i + 3],
            )),
        bits_per_sample != 16 && bits_per_sample != 24 && bits_per_sample != 32 ==> r
            is Unsupported,
{
    let n = data.len();
    if bits_per_sample == 16 {
        let count = n / 2;
        let mut v: Vec<i16> = Vec::with_capacity(count);
        let mut i: usize = 0;
        while i < count
            invariant
                n == data@.len(),
                count == n / 2,
                i <= count,
                v@.len() == i,
                forall|j: int|
                    0 <= j < i ==> #[trigger] v@[j] == pcm16_value(data@[2 * j], data@[2 * j + 1]),
            decreases count - i,
        {
            let lo = data[2 * i] as u32;
            let hi = data[2 * i + 1] as u32;
            let u = lo + 256 * hi;
            let s: i16 = if u >= 0x8000 {
                (u as i32 - 0x10000) as i16
            } else {
                u as i16
            };
            v.push(s);
            i = i + 1;
        }
        DecodedSamples::Pcm16(v)
    } else if bits_per_sample == 24 {
        let count = n / 3;
        let mut v: Vec<i32> = Vec::with_capacity(count);
        let mut i: usize = 0;
        while i < count
            invariant
                n == data@.len(),
                count == n / 3,
                i <= count,
                v@.len() == i,
                forall|j: int|
                    0 <= j < i ==> #[trigger] v@[j] == pcm24_value(
                        data@[3 * j],
                        data@[3 * j + 1],
                        data@[3 * j + 2],
                    ),
            decreases count - i,
        {
            let b0 = data[3 * i] as u32;
            let b1 = data[3 * i + 1] as u32;
            let b2 = data[3 * i + 2] as u32;
            let word = b0 + 256 * b1 + 65536 * b2;
            let sample: i32 = if word >= 0x80_0000 {
                word as i32 - 0x100_0000
            } else {
                word as i32
            };
            v.push(sample);
            i = i + 1;
        }
        DecodedSamples::Pcm24(v)
    } else if bits_per_sample == 32 {
        let count = n / 4;
        let mut v: Vec<u32> = Vec::with_capacity(count);
        let mut i: usize = 0;
        while i < count
            invariant
                n == data@.len(),
                count == n / 4,
                i <= count,
                v@.len() == i,
                forall|j: int|
                    0 <= j < i ==> #[trigger] v@[j] == word32_value(
                        data@[4 * j],
                        data@[4 * j + 1],
                        data@[4 * j + 2],
                        data@[4 * j + 3],
                    ),
            decreases count - i,
        {
            let b0 = data[4 * i] as u32;
            let b1 = data[4 * i + 1] as u32;
            let b2 = data[4 * i + 2] as u32;
            let b3 = data[4 * i + 3] as u32;
            v.push(b0 + 256 * b1 + 65536 * b2 + 16777216 * b3);
            i = i + 1;
        }
        DecodedSamples::Float32(v)
    } else {
        DecodedSamples::Unsupported
    }
}

/// Decoded 16-bit and 24-bit samples lie in the signed range of their width.
pub proof fn lemma_pcm_ranges(b0: u8, b1: u8, b2: u8)
    ensures
        -0x8000 <= pcm16_value(b0, b1) < 0x8000,
        -0x80_0000 <= pcm24_value(b0, b1, b2) < 0x80_0000,
{
}

/// Byte order and sign: the first byte of a group is the least significant
/// one, the last byte's top bit is the sign, and a decoded value agrees with
/// the unsigned reading of its bytes modulo the width.
pub proof fn lemma_little_endian_two_complement(b0: u8, b1: u8, b2: u8, b3: u8)
    ensures
        pcm16_value(b0, b1) % 256 == b0,
        (pcm16_value(b0, b1) < 0) <==> b1 >= 0x80,
        (pcm16_value(b0, b1) - (b0 + 256 * b1)) % 0x1_0000 == 0,
        pcm24_value(b0, b1, b2) % 256 == b0,
        (pcm24_value(b0, b1, b2) < 0) <==> b2 >= 0x80,
        (pcm24_value(b0, b1, b2) - (b0 + 256 * b1 + 65536 * b2)) % 0x100_0000 == 0,
        word32_value(b0, b1, b2, b3) % 256 == b0,
        word32_value(b0, b1, b2, b3) / 0x100_0000 == b3,
        0 <= word32_value(b0, b1, b2, b3) < 0x1_0000_0000,
{
    let u16v: int = b0 + 256 * b1;
    let u24v: int = b0 + 256 * b1 + 65536 * b2;
    assert(u16v % 256 == b0 && (u16v - 0x10000) % 256 == b0) by (nonlinear_arith)
        requires
            u16v == b0 + 256 * b1,
            0 <= b0 < 256,
    ;
    assert(u24v % 256 == b0 && (u24v - 0x100_0000) % 256 == b0) by (nonlinear_arith)
        requires
            u24v == b0 + 256 * b1 + 65536 * b2,
            0 <= b0 < 256,
    ;
    assert(word32_value(b0, b1, b2, b3) % 256 == b0) by (nonlinear_arith)
        requires
            0 <= b0 < 256,
            0 <= b1 < 256,
            0 <= b2 < 256,
            word32_value(b0, b1, b2, b3) == b0 + 256 * b1 + 65536 * b2 + 16777216 * b3,
    ;
    assert(word32_value(b0, b1, b2, b3) / 0x100_0000 == b3) by (nonlinear_arith)
        requires
            0 <= b0 < 256,
            0 <= b1 < 256,
            0 <= b2 < 256,
            word32_value(b0, b1, b2, b3) == b0 + 256 * b1 + 65536 * b2 + 16777216 * b3,
    ;
}

} // verus!
