//! Sample layout: interleaved buffers, per-channel buffers, channel count
//! conversion and the frame-by-frame mix of two sources. Sample values are
//! moved, never computed here: whatever arithmetic a mix needs is handed in.
use vstd::prelude::*;
use vstd::arithmetic::div_mod::{lemma_fundamental_div_mod, lemma_fundamental_div_mod_converse};

verus! {

/// `(k * d + c) / d == k` and `(k * d + c) % d == c` for `0 <= c < d`.
pub proof fn lemma_split_index(k: int, c: int, d: int)
    requires
        0 <= c < d,
    ensures
        (k * d + c) / d == k,
        (k * d + c) % d == c,
{
    lemma_fundamental_div_mod_converse(k * d + c, d, k, c);
}

/// Each input sample, twice: a mono buffer as stereo.
pub open spec fn doubled<T>(mono: Seq<T>) -> Seq<T> {
    Seq::new(2 * mono.len(), |i: int| mono[i / 2])
}

/// A mono buffer as stereo is twice as long, and both samples of frame `i`
/// are mono sample `i`.
pub proof fn lemma_doubled_frames<T>(mono: Seq<T>)
    ensures
        doubled(mono).len() == 2 * mono.len(),
        forall|i: int|
            0 <= i < mono.len() ==> #[trigger] doubled(mono)[2 * i] == mono[i] && doubled(
                mono,
            )[2 * i + 1] == mono[i],
{
    assert forall|i: int| 0 <= i < mono.len() implies #[trigger] doubled(mono)[2 * i]
        == mono[i] && doubled(mono)[2 * i + 1] == mono[i] by {
        lemma_split_index(i, 0, 2);
        lemma_split_index(i, 1, 2);
    }
}

/// Converts mono samples to stereo by duplicating each sample.
pub fn mono_to_stereo<T: Copy>(mono: &[T]) -> (stereo: Vec<T>)
    requires
        2 * mono@.len() <= usize::MAX,
    ensures
        stereo@ == doubled(mono@),
{
    let n = mono.len();
    let mut stereo: Vec<T> = Vec::with_capacity(n * 2);
    let mut i: usize = 0;
    while i < n
        invariant
            n == mono@.len(),
            i <= n,
            stereo@.len() == 2 * i,
            forall|j: int| 0 <= j < 2 * i ==> stereo@[j] == mono@[j / 2],
        decreases n - i,
    {
        let s = mono[i];
        stereo.push(s);
        stereo.push(s);
        i = i + 1;
    }
    assert(stereo@ =~= doubled(mono@));
    stereo
}

/// Number of samples of channel `c` in an interleaved buffer of `n` samples
/// and `d` channels: those at positions `k * d + c < n`.
pub open spec fn channel_len(n: nat, d: nat, c: int) -> nat {
    if c < n {
        ((n - c - 1) / (d as int) + 1) as nat
    } else {
        0
    }
}

/// Channel `c` of an interleaved buffer of `d` channels.
pub open spec fn channel_of<T>(x: Seq<T>, d: nat, c: int) -> Seq<T> {
    Seq::new(channel_len(x.len(), d, c), |k: int| x[k * d + c])
}

/// An interleaved buffer split into its `d` channels.
pub open spec fn deinterleaved<T>(x: Seq<T>, d: nat) -> Seq<Seq<T>> {
    Seq::new(d, |c: int| channel_of(x, d, c))
}

/// Per-channel buffers merged frame by frame; the frame count is that of
/// the first channel.
pub open spec fn interleaved<T>(chs: Seq<Seq<T>>) -> Seq<T> {
    if chs.len() == 0 {
        Seq::empty()
    } else {
        Seq::new(
            chs[0].len() * chs.len(),
            |i: int| chs[i % (chs.len() as int)][i / (chs.len() as int)],
        )
    }
}

/// The views of a vector of vectors.
pub open spec fn views_of<T>(v: Seq<Vec<T>>) -> Seq<Seq<T>> {
    Seq::new(v.len(), |i: int| v[i]@)
}

/// Deinterleaves interleaved samples into per-channel vectors.
pub fn deinterleave<T: Copy>(interleaved: &[T], channels: usize) -> (r: Vec<Vec<T>>)
    requires
        channels > 0 || interleaved@.len() == 0,
    ensures
        views_of(r@) == deinterleaved(interleaved@, channels as nat),
{
    let n = interleaved.len();
    let mut result: Vec<Vec<T>> = Vec::new();
    let mut c: usize = 0;
    while c < channels
        invariant
            n == interleaved@.len(),
            c <= channels,
            result@.len() == c,
            forall|j: int|
                0 <= j < c ==> (#[trigger] result@[j])@ == channel_of(
                    interleaved@,
                    channels as nat,
                    j,
                ),
        decreases channels - c,
    {
        let mut v: Vec<T> = Vec::new();
        if c < n {
            let mut idx: usize = c;
            let ghost mut k: int = 0;
            loop
                invariant_except_break
                    idx == k * channels + c,
                    idx < n,
                invariant
                    n == interleaved@.len(),
                    channels > 0,
                    c < channels,
                    c < n,
                    v@.len() == k,
                    0 <= k,
                    forall|j: int| 0 <= j < k ==> v@[j] == interleaved@[j * channels + c],
                ensures
                    v@ =~= channel_of(interleaved@, channels as nat, c as int),
                decreases n - idx,
            {
                v.push(interleaved[idx]);
                proof {
                    k = k + 1;
                }
                if n - idx <= channels {
                    proof {
                        // (k - 1) * channels + c <= n - 1 < k * channels + c
                        let r = (n - 1 - c) - (k - 1) * channels;
                        assert(k * channels == (k - 1) * channels + channels) by (nonlinear_arith);
                        assert(n - 1 - c == (k - 1) * channels + r);
                        lemma_fundamental_div_mod_converse(n - 1 - c, channels as int, k - 1, r);
                    }
                    break;
                }
                proof {
                    assert(k * channels == (k - 1) * channels + channels) by (nonlinear_arith);
                }
                idx = idx + channels;
            }
        } else {
            assert(v@ =~= channel_of(interleaved@, channels as nat, c as int));
        }
        result.push(v);
        c = c + 1;
    }
    assert(views_of(result@) =~= deinterleaved(interleaved@, channels as nat));
    result
}

/// Every channel is at least as long as the first.
pub open spec fn channels_cover_first<T>(chs: Seq<Seq<T>>) -> bool {
    forall|c: int| 0 <= c < chs.len() ==> (#[trigger] chs[c]).len() >= chs[0].len()
}

/// Interleaves per-channel vectors back into a single buffer.
pub fn interleave<T: Copy>(channels: &[Vec<T>]) -> (r: Vec<T>)
    requires
        channels_cover_first(views_of(channels@)),
        channels@.len() > 0 ==> channels@[0]@.len() * channels@.len() <= usize::MAX,
    ensures
        r@ == interleaved(views_of(channels@)),
{
    let num_ch = channels.len();
    if num_ch == 0 {
        let r: Vec<T> = Vec::new();
        assert(r@ =~= interleaved(views_of(channels@)));
        return r;
    }
    let frames = channels[0].len();
    let ghost chs = views_of(channels@);
    let mut result: Vec<T> = Vec::with_capacity(frames * num_ch);
    let mut frame: usize = 0;
    while frame < frames
        invariant
            chs == views_of(channels@),
            num_ch == chs.len(),
            num_ch > 0,
            frames == chs[0].len(),
            channels_cover_first(chs),
            frame <= frames,
            result@.len() == frame * num_ch,
            forall|i: int|
                0 <= i < frame * num_ch ==> result@[i] == chs[i % (num_ch as int)][i / (
                num_ch as int)],
        decreases frames - frame,
    {
        let mut c: usize = 0;
        while c < num_ch
            invariant
                chs == views_of(channels@),
                num_ch == chs.len(),
                num_ch > 0,
                frames == chs[0].len(),
                channels_cover_first(chs),
                frame < frames,
                c <= num_ch,
                result@.len() == frame * num_ch + c,
                forall|i: int|
                    0 <= i < frame * num_ch + c ==> result@[i] == chs[i % (num_ch as int)][i / (
                    num_ch as int)],
            decreases num_ch - c,
        {
            assert(chs[c as int].len() >= frames);
            let s = channels[c][frame];
            proof {
                lemma_split_index(frame as int, c as int, num_ch as int);
            }
            result.push(s);
            c = c + 1;
        }
        proof {
            assert((frame + 1) * num_ch == frame * num_ch + num_ch) by (nonlinear_arith);
        }
        frame = frame + 1;
    }
    assert(result@ =~= interleaved(views_of(channels@)));
    result
}

/// Splitting a buffer of whole frames into channels and merging them again
/// gives the buffer back.
pub proof fn lemma_interleave_deinterleave_roundtrip<T>(x: Seq<T>, d: nat)
    requires
        d > 0,
        (x.len() as int) % (d as int) == 0,
    ensures
        interleaved(deinterleaved(x, d)) == x,
{
    let chs = deinterleaved(x, d);
    let n = x.len() as int;
    let di = d as int;
    lemma_fundamental_div_mod(n, di);
    let f = n / di;
    assert(n == di * f);
    assert(f * di == n) by (nonlinear_arith)
        requires
            n == di * f,
    ;
    if n > 0 {
        assert(f >= 1) by (nonlinear_arith)
            requires
                n == di * f,
                n > 0,
                di > 0,
        ;
        lemma_split_index(f - 1, di - 1, di);
        assert((f - 1) * di + (di - 1) == n - 1) by (nonlinear_arith)
            requires
                f * di == n,
        ;
    }
    assert(chs[0].len() == f);
    let y = interleaved(chs);
    assert(y.len() == n);
    assert forall|i: int| 0 <= i < n implies y[i] == x[i] by {
        let c = i % di;
        let k = i / di;
        lemma_fundamental_div_mod(i, di);
        assert(i == k * di + c) by (nonlinear_arith)
            requires
                i == di * k + c,
        ;
        assert(0 <= c < di);
        assert(k * di <= n - 1 - c);
        lemma_split_index(0, 0, di);
        // k is at most (n - c - 1) / d
        lemma_fundamental_div_mod(n - c - 1, di);
        let q = (n - c - 1) / di;
        let rr = (n - c - 1) % di;
        assert(k <= q) by (nonlinear_arith)
            requires
                k * di <= n - 1 - c,
                n - c - 1 == di * q + rr,
                0 <= rr < di,
                di > 0,
        ;
        assert(k >= 0) by (nonlinear_arith)
            requires
                i == di * k + c,
                0 <= c < di,
                i >= 0,
        ;
        assert(chs[c].len() == q + 1);
        assert(chs[c][k] == x[k * di + c]);
    }
    assert(y =~= x);
}

/// Merging channels of equal length and splitting the result again gives
/// the channels back.
pub proof fn lemma_deinterleave_interleave_roundtrip<T>(chs: Seq<Seq<T>>)
    requires
        chs.len() > 0,
        forall|c: int| 0 <= c < chs.len() ==> (#[trigger] chs[c]).len() == chs[0].len(),
    ensures
        deinterleaved(interleaved(chs), chs.len()) == chs,
{
    let x = interleaved(chs);
    let d = chs.len() as int;
    let f = chs[0].len() as int;
    let n = x.len() as int;
    assert(n == f * d);
    let y = deinterleaved(x, chs.len());
    assert forall|c: int| 0 <= c < d implies #[trigger] y[c] == chs[c] by {
        if c < n {
            assert(f >= 1) by (nonlinear_arith)
                requires
                    n == f * d,
                    0 <= c < n,
                    d > 0,
            ;
            let r = d - 1 - c;
            assert(n - c - 1 == (f - 1) * d + r) by (nonlinear_arith)
                requires
                    n == f * d,
                    r == d - 1 - c,
            ;
            lemma_fundamental_div_mod_converse(n - c - 1, d, f - 1, r);
        } else {
            assert(f == 0) by (nonlinear_arith)
                requires
                    n == f * d,
                    n <= c < d,
                    f >= 0,
                    d > 0,
            ;
        }
        assert(y[c].len() == f);
        assert forall|k: int| 0 <= k < f implies y[c][k] == chs[c][k] by {
            lemma_split_index(k, c, d);
            assert(k * d + c < n) by (nonlinear_arith)
                requires
                    0 <= k < f,
                    0 <= c < d,
                    n == f * d,
            ;
        }
        assert(y[c] =~= chs[c]);
    }
    assert(y =~= chs);
}

/// How samples are brought from one channel count to another.
#[derive(Debug, Clone, Copy, PartialEq, Eq, Structural)]
pub enum ChannelConversion {
    /// Same channel count: samples pass unchanged.
    Passthrough,
    /// Mono to stereo: each sample is duplicated.
    MonoToStereo,
    /// Stereo to mono: each pair is averaged.
    StereoToMono,
    /// No conversion exists between the counts: samples pass unchanged.
    Unsupported,
}

/// The conversion from `source` channels to `target` channels.
pub fn channel_conversion(source: usize, target: usize) -> (r: ChannelConversion)
    ensures
        source == target ==> r == ChannelConversion::Passthrough,
        source != target && source == 1 && target == 2 ==> r == ChannelConversion::MonoToStereo,
        source != target && source == 2 && target == 1 ==> r == ChannelConversion::StereoToMono,
        source != target && !(source == 1 && target == 2) && !(source == 2 && target == 1) ==> r
            == ChannelConversion::Unsupported,
{
    if source == target {
        ChannelConversion::Passthrough
    } else if source == 1 && target == 2 {
        ChannelConversion::MonoToStereo
    } else if source == 2 && target == 1 {
        ChannelConversion::StereoToMono
    } else {
        ChannelConversion::Unsupported
    }
}

/// The sample at `i`, or `silence` past the end.
pub open spec fn sample_or<T>(x: Seq<T>, i: int, silence: T) -> T {
    if i < x.len() {
        x[i]
    } else {
        silence
    }
}

/// The larger frame count of the two sources, in samples.
pub open spec fn mixed_len(a: nat, b: nat, d: nat) -> int {
    let fa = a as int / d as int;
    let fb = b as int / d as int;
    (if fa >= fb {
        fa
    } else {
        fb
    }) * d
}

/// The mix holds whole frames only, as many as the longer source has: no
/// fewer than either source's whole frames, and no more samples than the
/// longer source holds.
pub proof fn lemma_mix_covers_longer_source(a: nat, b: nat, d: nat)
    requires
        d > 0,
    ensures
        mixed_len(a, b, d) % (d as int) == 0,
        mixed_len(a, b, d) >= (a as int / d as int) * d,
        mixed_len(a, b, d) >= (b as int / d as int) * d,
        mixed_len(a, b, d) <= a || mixed_len(a, b, d) <= b,
        mixed_len(a, b, d) == (a as int / d as int) * d || mixed_len(a, b, d) == (b as int
            / d as int) * d,
{
    let fa = a as int / d as int;
    let fb = b as int / d as int;
    let f = if fa >= fb {
        fa
    } else {
        fb
    };
    lemma_fundamental_div_mod(a as int, d as int);
    lemma_fundamental_div_mod(b as int, d as int);
    lemma_split_index(f, 0, d as int);
    assert(fa >= fb ==> fa * d >= fb * d) by (nonlinear_arith)
        requires
            d > 0,
    ;
    assert(fa < fb ==> fa * d < fb * d) by (nonlinear_arith)
        requires
            d > 0,
    ;
    assert(d * fa <= a && d * fb <= b) by (nonlinear_arith)
        requires
            a == d * fa + (a as int) % (d as int),
            b == d * fb + (b as int) % (d as int),
            (a as int) % (d as int) >= 0,
            (b as int) % (d as int) >= 0,
    ;
}

/// Mixes two interleaved sources of `channels` channels frame by frame.
/// The output has as many whole frames as the longer source; where a source
/// has run out, `silence` stands in for it. Sample `i` of the output is
/// `combine(mic[i], loopback[i])`.
pub fn mix_frames<T: Copy, F: Fn(T, T) -> T>(
    mic: &[T],
    loopback: &[T],
    channels: usize,
    silence: T,
    combine: F,
) -> (r: Vec<T>)
    requires
        channels > 0,
        forall|a: T, b: T| combine.requires((a, b)),
    ensures
        r@.len() == mixed_len(mic@.len(), loopback@.len(), channels as nat),
        forall|i: int|
            0 <= i < r@.len() ==> combine.ensures(
                (sample_or(mic@, i, silence), sample_or(loopback@, i, silence)),
                #[trigger] r@[i],
            ),
{
    let mic_frames = mic.len() / channels;
    let loop_frames = loopback.len() / channels;
    let len_frames = if mic_frames >= loop_frames {
        mic_frames
    } else {
        loop_frames
    };
    proof {
        let ml = mic@.len() as int;
        let ll = loopback@.len() as int;
        let ch = channels as int;
        lemma_fundamental_div_mod(ml, ch);
        lemma_fundamental_div_mod(ll, ch);
        let mr = ml % ch;
        let lr = ll % ch;
        let lf = len_frames as int;
        assert(lf * ch <= usize::MAX) by (nonlinear_arith)
            requires
                lf == ml / ch || lf == ll / ch,
                ml == ch * (ml / ch) + mr,
                ll == ch * (ll / ch) + lr,
                mr >= 0,
                lr >= 0,
                ml <= usize::MAX,
                ll <= usize::MAX,
        ;
    }
    let total = len_frames * channels;
    let mut out: Vec<T> = Vec::with_capacity(total);
    let mut idx: usize = 0;
    while idx < total
        invariant
            total == mixed_len(mic@.len(), loopback@.len(), channels as nat),
            idx <= total,
            out@.len() == idx,
            forall|a: T, b: T| combine.requires((a, b)),
            forall|i: int|
                0 <= i < idx ==> combine.ensures(
                    (sample_or(mic@, i, silence), sample_or(loopback@, i, silence)),
                    #[trigger] out@[i],
                ),
        decreases total - idx,
    {
        let m = if idx < mic.len() {
            mic[idx]
        } else {
            silence
        };
        let l = if idx < loopback.len() {
            loopback[idx]
        } else {
            silence
        };
        let s = combine(m, l);
        out.push(s);
        idx = idx + 1;
    }
    out
}

} // verus!
