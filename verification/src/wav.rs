//! The canonical waveform container: a single-channel, 16-bit,
//! signed-integer PCM file at a given sample rate, specified byte for
//! byte and produced by a verified encoder.

use vstd::prelude::*;

verus! {

/// Little-endian bytes of a 32-bit word.
pub open spec fn le32(x: u32) -> Seq<u8> {
    seq![
        (x & 0xff) as u8,
        ((x >> 8) & 0xff) as u8,
        ((x >> 16) & 0xff) as u8,
        ((x >> 24) & 0xff) as u8,
    ]
}

/// Little-endian bytes of a 16-bit word.
pub open spec fn le16(x: u16) -> Seq<u8> {
    seq![(x & 0xff) as u8, ((x >> 8) & 0xff) as u8]
}

/// Two's-complement 16-bit image of a container sample.
pub open spec fn sample_bits(s: int) -> u16
    recommends
        -32768 <= s <= 32767,
{
    if s >= 0 {
        s as u16
    } else {
        (s + 0x10000) as u16
    }
}

/// The 44-byte header of the container holding `n` mono 16-bit samples
/// at `rate` Hz: the outer chunk with its size, the format chunk
/// declaring integer PCM, one channel, the sample rate, the byte rate,
/// the frame stride and the bit depth, and the data chunk's size.
pub open spec fn wav_header(rate: u32, n: int) -> Seq<u8>
    recommends
        0 <= 2 * n + 36 <= u32::MAX,
        rate <= u32::MAX / 2,
{
    seq![0x52u8, 0x49u8, 0x46u8, 0x46u8] + le32((36 + 2 * n) as u32) + seq![
        0x57u8,
        0x41u8,
        0x56u8,
        0x45u8,
    ] + seq![0x66u8, 0x6du8, 0x74u8, 0x20u8] + le32(16) + le16(1) + le16(1) + le32(rate) + le32(
        (2 * rate) as u32,
    ) + le16(2) + le16(16) + seq![0x64u8, 0x61u8, 0x74u8, 0x61u8] + le32((2 * n) as u32)
}

/// The data chunk's payload: each sample as two little-endian bytes, in
/// order.
pub open spec fn sample_data(samples: Seq<int>) -> Seq<u8>
    decreases samples.len(),
{
    if samples.len() == 0 {
        Seq::empty()
    } else {
        sample_data(samples.drop_last()) + le16(sample_bits(samples.last()))
    }
}

/// The whole container, bit-exact.
pub open spec fn wav_bytes(rate: u32, samples: Seq<int>) -> Seq<u8> {
    wav_header(rate, samples.len() as int) + sample_data(samples)
}

/// Append the little-endian bytes of a 32-bit word.
fn push_le32(out: &mut Vec<u8>, x: u32)
    ensures
        final(out)@ == old(out)@ + le32(x),
{
    proof {
        assert(x & 0xff < 256 && (x >> 8) & 0xff < 256 && (x >> 16) & 0xff < 256 && (x >> 24)
            & 0xff < 256) by (bit_vector);
    }
    out.push((x & 0xff) as u8);
    out.push(((x >> 8) & 0xff) as u8);
    out.push(((x >> 16) & 0xff) as u8);
    out.push(((x >> 24) & 0xff) as u8);
    proof {
        assert(final(out)@ =~= old(out)@ + le32(x));
    }
}

/// Append the little-endian bytes of a 16-bit word.
fn push_le16(out: &mut Vec<u8>, x: u16)
    ensures
        final(out)@ == old(out)@ + le16(x),
{
    proof {
        assert(x & 0xff < 256 && (x >> 8) & 0xff < 256) by (bit_vector);
    }
    out.push((x & 0xff) as u8);
    out.push(((x >> 8) & 0xff) as u8);
    proof {
        assert(final(out)@ =~= old(out)@ + le16(x));
    }
}

/// The two's-complement 16-bit image of a sample.
fn sample_to_bits(s: i16) -> (r: u16)
    ensures
        r == sample_bits(s as int),
{
    if s >= 0 {
        s as u16
    } else {
        ((s as i32) + 0x10000) as u16
    }
}

/// Encode mono 16-bit samples into the waveform container at `rate`
/// Hz. The container's size fields are 32-bit, which bounds the data
/// payload and the byte rate.
pub fn encode_wav(rate: u32, samples: &Vec<i16>) -> (out: Vec<u8>)
    requires
        2 * samples@.len() + 36 <= u32::MAX,
        rate <= u32::MAX / 2,
    ensures
        out@ == wav_bytes(rate, samples@.map_values(|s: i16| s as int)),
{
    let ghost model = samples@.map_values(|s: i16| s as int);
    let n = samples.len();
    let data_size: u32 = (2 * n) as u32;
    let mut out: Vec<u8> = Vec::new();
    out.push(0x52u8);
    out.push(0x49u8);
    out.push(0x46u8);
    out.push(0x46u8);
    push_le32(&mut out, 36 + data_size);
    out.push(0x57u8);
    out.push(0x41u8);
    out.push(0x56u8);
    out.push(0x45u8);
    out.push(0x66u8);
    out.push(0x6du8);
    out.push(0x74u8);
    out.push(0x20u8);
    push_le32(&mut out, 16);
    push_le16(&mut out, 1);
    push_le16(&mut out, 1);
    push_le32(&mut out, rate);
    push_le32(&mut out, 2 * rate);
    push_le16(&mut out, 2);
    push_le16(&mut out, 16);
    out.push(0x64u8);
    out.push(0x61u8);
    out.push(0x74u8);
    out.push(0x61u8);
    push_le32(&mut out, data_size);
    proof {
        assert(out@ =~= wav_header(rate, model.len() as int));
    }
    let ghost header = out@;
    let mut i: usize = 0;
    while i < n
        invariant
            i <= n,
            n == samples@.len(),
            model == samples@.map_values(|s: i16| s as int),
            out@ == header + sample_data(model.take(i as int)),
        decreases n - i,
    {
        let bits = sample_to_bits(samples[i]);
        push_le16(&mut out, bits);
        proof {
            let t = model.take(i + 1 as int);
            assert(t.drop_last() =~= model.take(i as int));
            assert(t.last() == model[i as int]);
            assert(out@ =~= header + sample_data(t));
        }
        i = i + 1;
    }
    proof {
        assert(model.take(n as int) =~= model);
    }
    out
}

} // verus!
