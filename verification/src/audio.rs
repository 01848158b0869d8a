//! The sample model of the capture pipeline.
//!
//! A captured sample is a fixed-point integer `k` standing for the
//! normalized amplitude `k / FULL_SCALE`, with `FULL_SCALE = 32767`, the
//! largest magnitude a signed 16-bit container sample can carry on both
//! sides of zero. Device-native formats are normalized into this
//! representation as they arrive; quantizing to the container then
//! reduces to clamping at full scale.

use vstd::prelude::*;

verus! {

/// Fixed-point scale of a normalized sample: `FULL_SCALE` stands for
/// amplitude `1.0`, `-FULL_SCALE` for `-1.0`.
pub const FULL_SCALE: i32 = 32767;

/// Truncating division (round toward zero) for a positive divisor.
pub open spec fn div_trunc(a: int, b: int) -> int
    recommends
        b > 0,
{
    if a >= 0 {
        a / b
    } else {
        -((-a) / b)
    }
}

/// A normalized sample clamped to the amplitude range the 16-bit
/// container can hold: values outside `[-1.0, 1.0]` saturate, they
/// never wrap.
pub open spec fn clamp16(k: int) -> int {
    if k > FULL_SCALE {
        FULL_SCALE as int
    } else if k < -FULL_SCALE {
        -FULL_SCALE as int
    } else {
        k
    }
}

/// Quantize a normalized fixed-point sample to a signed 16-bit
/// container sample. Since a sample `k` stands for `k / 32767`, the
/// container value `clamp(k/32767, -1, 1) * 32767` is exactly `k`
/// clamped at full scale.
pub fn quantize(k: i32) -> (r: i16)
    ensures
        r as int == clamp16(k as int),
{
    if k > FULL_SCALE {
        32767i16
    } else if k < -FULL_SCALE {
        -32767i16
    } else {
        k as i16
    }
}

/// What a device-native signed 16-bit sample stands for. Normalizing
/// `s` divides it by 32767, so in fixed point it is carried unchanged.
pub open spec fn normalized_i16(s: i16) -> int {
    s as int
}

/// Normalize a device-native signed 16-bit sample.
pub fn normalize_i16(s: i16) -> (r: i32)
    ensures
        r as int == normalized_i16(s),
        -32768 <= r <= 32767,
{
    s as i32
}

/// What a device-native unsigned 16-bit sample stands for: `s` maps to
/// the amplitude `(s / 65535) * 2 - 1`, i.e. `(2s - 65535) / 65535`,
/// scaled to fixed point and rounded toward zero.
pub open spec fn normalized_u16(s: u16) -> int {
    div_trunc((2 * s - 65535) * 32767, 65535)
}

/// Normalize a device-native unsigned 16-bit sample, centering it at
/// zero: 0 maps to `-1.0`, 65535 to `1.0`, with the midpoint near zero.
pub fn normalize_u16(s: u16) -> (r: i32)
    ensures
        r as int == normalized_u16(s),
        -32767 <= r <= 32767,
{
    let doubled: u32 = 2 * (s as u32);
    if doubled >= 65535 {
        let diff: u64 = (doubled - 65535) as u64;
        let q: u64 = (diff * 32767) / 65535;
        assert(q <= 32767);
        q as i32
    } else {
        let diff: u64 = (65535 - doubled) as u64;
        let q: u64 = (diff * 32767) / 65535;
        assert(q <= 32767);
        let r: i32 = -(q as i32);
        assert(r as int == normalized_u16(s));
        r
    }
}

/// Sum of a sequence of samples.
pub open spec fn seq_sum(s: Seq<i32>) -> int
    decreases s.len(),
{
    if s.len() == 0 {
        0
    } else {
        seq_sum(s.drop_last()) + s.last()
    }
}

/// The mono track a multi-channel buffer downmixes to. For a channel
/// count `c >= 2` the interleaved buffer is cut into frames of `c`
/// samples (the final frame may be shorter if the buffer ends
/// mid-frame) and each frame becomes the mean of its samples, rounded
/// toward zero. A single-channel buffer is carried unchanged.
pub open spec fn downmix_spec(s: Seq<i32>, c: int) -> Seq<int> {
    if c <= 1 {
        s.map_values(|x: i32| x as int)
    } else {
        let n = (s.len() + c - 1) / c;
        Seq::new(n as nat, |i: int| {
            let end = if (i + 1) * c <= s.len() { (i + 1) * c } else { s.len() as int };
            let frame = s.subrange(i * c, end);
            div_trunc(seq_sum(frame), frame.len() as int)
        })
    }
}

/// Truncating division holds between the bounds that hold of the
/// dividend scaled by the divisor.
pub proof fn lemma_div_trunc_bounds(a: int, b: int, lo: int, hi: int)
    requires
        b >= 1,
        lo <= 0,
        hi >= 0,
        b * lo <= a,
        a <= b * hi,
    ensures
        lo <= div_trunc(a, b),
        div_trunc(a, b) <= hi,
{
    if a >= 0 {
        assert(a / b <= hi) by (nonlinear_arith)
            requires
                b >= 1,
                a >= 0,
                a <= b * hi,
        ;
        assert(a / b >= 0) by (nonlinear_arith)
            requires
                b >= 1,
                a >= 0,
        ;
    } else {
        assert((-a) / b <= -lo) by (nonlinear_arith)
            requires
                b >= 1,
                a < 0,
                b * lo <= a,
        ;
        assert((-a) / b >= 0) by (nonlinear_arith)
            requires
                b >= 1,
                a < 0,
        ;
    }
}

/// Truncating division of a sum of samples by the (positive) count it
/// was summed over.
fn div_trunc_i64(a: i64, b: u32) -> (r: i64)
    requires
        b >= 1,
        a > i64::MIN,
    ensures
        r == div_trunc(a as int, b as int),
        -a <= r <= a || a <= r <= -a,
{
    if a >= 0 {
        let q: u64 = (a as u64) / (b as u64);
        assert(q <= a) by (nonlinear_arith)
            requires
                b >= 1,
                a >= 0,
                q == (a as int) / (b as int),
        ;
        q as i64
    } else {
        let m: u64 = (-a) as u64;
        let q: u64 = m / (b as u64);
        assert(q <= m) by (nonlinear_arith)
            requires
                b >= 1,
                q == (m as int) / (b as int),
        ;
        -(q as i64)
    }
}

/// Downmix an interleaved buffer to mono by averaging each frame of
/// `channels` samples; a buffer that is already mono (or reports no
/// channel layout) is copied unchanged.
pub fn downmix(samples: &Vec<i32>, channels: u16) -> (mono: Vec<i32>)
    ensures
        mono@.map_values(|x: i32| x as int) =~= downmix_spec(samples@, channels as int),
{
    let len = samples.len();
    if channels <= 1 {
        let r = samples.clone();
        assert(r@.map_values(|x: i32| x as int) =~= downmix_spec(samples@, channels as int));
        return r;
    }
    let c: usize = channels as usize;
    let ghost full = downmix_spec(samples@, channels as int);
    let mut mono: Vec<i32> = Vec::new();
    let mut start: usize = 0;
    proof {
        assert(mono@.len() * c == 0) by (nonlinear_arith)
            requires
                mono@.len() == 0,
        ;
    }
    while start < len
        invariant
            2 <= c <= 65535,
            c == channels as int,
            len == samples@.len(),
            start <= len,
            full == downmix_spec(samples@, channels as int),
            mono@.map_values(|x: i32| x as int) =~= full.take(mono@.len() as int),
            start == mono@.len() * c || (start == len && len < mono@.len() * c
                && mono@.len() * c < len + c),
        decreases len - start,
    {
        let end = if len - start >= c {
            start + c
        } else {
            len
        };
        let ghost frame = samples@.subrange(start as int, end as int);
        let mut sum: i64 = 0;
        let mut j = start;
        while j < end
            invariant
                start <= j <= end <= len,
                end - start <= c <= 65535,
                len == samples@.len(),
                frame == samples@.subrange(start as int, end as int),
                sum == seq_sum(samples@.subrange(start as int, j as int)),
                (j - start) * (i32::MIN as int) <= sum,
                sum <= (j - start) * (i32::MAX as int),
            decreases end - j,
        {
            let x = samples[j];
            proof {
                let pre = samples@.subrange(start as int, j as int);
                let post = samples@.subrange(start as int, j + 1 as int);
                assert(post.drop_last() =~= pre);
                assert(post.last() == samples@[j as int]);
            }
            sum = sum + x as i64;
            j = j + 1;
        }
        let flen: u32 = (end - start) as u32;
        proof {
            assert(frame.len() == end - start);
            lemma_div_trunc_bounds(sum as int, flen as int, i32::MIN as int, i32::MAX as int);
        }
        let mean64: i64 = div_trunc_i64(sum, flen);
        let mean: i32 = mean64 as i32;
        let ghost f = mono@.len() as int;
        proof {
            assert(start == f * c);
            assert((f + 1) * c == f * c + c) by (nonlinear_arith);
            assert(0 <= f < full.len() && full[f] == mean as int) by {
                assert((f + 1) * c == start + c);
                lemma_frame_index(samples@, channels as int, f);
                assert(f * c < len);
                assert(full.len() == (len as int + c - 1) / (c as int));
                assert(f < (len as int + c - 1) / (c as int)) by (nonlinear_arith)
                    requires
                        c >= 2,
                        f * c < len,
                        len + c - 1 >= 0,
                ;
            }
        }
        mono.push(mean);
        proof {
            assert(mono@.map_values(|x: i32| x as int) =~= full.take(mono@.len() as int));
            assert(mono@.len() * c == f * c + c) by (nonlinear_arith)
                requires
                    mono@.len() == f + 1,
            ;
        }
        start = end;
    }
    proof {
        let f = mono@.len() as int;
        assert(f == full.len()) by {
            if start == f * c {
                assert(f == (len as int + c - 1) / (c as int)) by (nonlinear_arith)
                    requires
                        c >= 2,
                        f * c == len,
                        f >= 0,
                ;
            } else {
                assert(f == (len as int + c - 1) / (c as int)) by (nonlinear_arith)
                    requires
                        c >= 2,
                        len < f * c,
                        f * c < len + c,
                        f >= 0,
                        len >= 0,
                ;
            }
        }
        assert(mono@.map_values(|x: i32| x as int) =~= full);
    }
    mono
}

/// The element a downmix produces for frame `i` is the truncated mean
/// of that frame.
pub proof fn lemma_frame_index(s: Seq<i32>, c: int, i: int)
    requires
        c >= 2,
        0 <= i,
        i * c < s.len(),
    ensures
        0 <= i < downmix_spec(s, c).len(),
        downmix_spec(s, c)[i] == ({
            let end = if (i + 1) * c <= s.len() { (i + 1) * c } else { s.len() as int };
            let frame = s.subrange(i * c, end);
            div_trunc(seq_sum(frame), frame.len() as int)
        }),
{
    assert(i < (s.len() + c - 1) / c) by (nonlinear_arith)
        requires
            c >= 2,
            0 <= i,
            i * c < s.len(),
    ;
}

/// A buffer of `n` whole frames of `c` interleaved samples downmixes to
/// exactly `n` mono samples, each the mean, rounded toward zero, of its
/// frame's `c` channel values.
pub proof fn lemma_downmix_whole_frames(s: Seq<i32>, c: int, n: int)
    requires
        c >= 1,
        n >= 0,
        s.len() == n * c,
    ensures
        downmix_spec(s, c).len() == n,
        forall|i: int|
            0 <= i < n ==> downmix_spec(s, c)[i] == div_trunc(
                seq_sum(s.subrange(i * c, (i + 1) * c)),
                c,
            ),
{
    if c == 1 {
        assert(s.len() == n);
        assert forall|i: int| 0 <= i < n implies downmix_spec(s, c)[i] == div_trunc(
            seq_sum(s.subrange(i * c, (i + 1) * c)),
            c,
        ) by {
            let frame = s.subrange(i, i + 1);
            assert(frame.len() == 1);
            assert(frame.drop_last() =~= Seq::<i32>::empty());
            assert(seq_sum(Seq::<i32>::empty()) == 0);
            assert(frame.last() == s[i]);
            assert(seq_sum(frame) == seq_sum(frame.drop_last()) + frame.last());
            assert(seq_sum(frame) == s[i]);
            assert(div_trunc(s[i] as int, 1) == s[i]);
        }
    } else {
        assert((n * c + c - 1) / c == n) by (nonlinear_arith)
            requires
                c >= 2,
                n >= 0,
        ;
        assert forall|i: int| 0 <= i < n implies downmix_spec(s, c)[i] == div_trunc(
            seq_sum(s.subrange(i * c, (i + 1) * c)),
            c,
        ) by {
            assert(0 <= i * c && (i + 1) * c <= n * c) by (nonlinear_arith)
                requires
                    c >= 2,
                    0 <= i < n,
            ;
            assert((i + 1) * c - i * c == c) by (nonlinear_arith);
        }
    }
}

/// Quantization clamps and never wraps: a sample beyond full scale
/// saturates at full scale, one within full scale is carried exactly,
/// and every quantized value lies within full scale.
pub proof fn lemma_quantize_clamps(k: int)
    ensures
        k > FULL_SCALE ==> clamp16(k) == FULL_SCALE,
        k < -FULL_SCALE ==> clamp16(k) == -FULL_SCALE,
        -FULL_SCALE <= k <= FULL_SCALE ==> clamp16(k) == k,
        -FULL_SCALE <= clamp16(k) <= FULL_SCALE,
{
}

} // verus!
