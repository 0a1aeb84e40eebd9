use vstd::arithmetic::div_mod::{
    lemma_div_is_ordered, lemma_div_multiples_vanish, lemma_div_pos_is_pos,
    lemma_fundamental_div_mod, lemma_mod_multiples_basic,
};
use vstd::prelude::*;

use crate::error::{AudioError, Error};

verus! {

/// The sum of a sequence of samples.
pub open spec fn sample_sum(s: Seq<i16>) -> int
    decreases s.len(),
{
    if s.len() == 0 {
        0
    } else {
        sample_sum(s.drop_last()) + s.last()
    }
}

/// In-memory PCM audio: interleaved integer samples with channel count and
/// sample rate metadata.
#[derive(Debug)]
pub struct AudioData {
    pub samples: Vec<i16>,
    pub channels: u8,
    pub sample_rate: u32,
}

impl AudioData {
    /// The metadata is meaningful and every interleaved frame is complete.
    pub open spec fn wf(self) -> bool {
        &&& self.channels >= 1
        &&& self.sample_rate >= 1
        &&& self.samples@.len() as int % (self.channels as int) == 0
    }

    /// How many complete interleaved frames the buffer holds.
    pub open spec fn frame_count(self) -> int {
        self.samples@.len() as int / self.channels as int
    }

    /// The samples of the i-th interleaved frame.
    pub open spec fn frame_seq(self, i: int) -> Seq<i16> {
        self.samples@.subrange(i * self.channels as int, (i + 1) * self.channels as int)
    }

    /// The average of the i-th frame's samples, rounded towards zero.
    pub open spec fn mono_sample(self, i: int) -> int {
        let s = sample_sum(self.frame_seq(i));
        if s >= 0 {
            s / (self.channels as int)
        } else {
            -((-s) / (self.channels as int))
        }
    }

    /// Duration of the audio in milliseconds.
    pub open spec fn spec_duration_ms(self) -> int {
        self.frame_count() * 1000 / (self.sample_rate as int)
    }

    /// Build an audio buffer, rejecting meaningless metadata and ragged frames.
    pub fn new(samples: Vec<i16>, channels: u8, sample_rate: u32) -> (r: Result<AudioData, Error>)
        ensures
            match r {
                Ok(a) => {
                    &&& a.wf()
                    &&& channels >= 1
                    &&& sample_rate >= 1
                    &&& samples@.len() as int % (channels as int) == 0
                    &&& a.samples@ == samples@
                    &&& a.channels == channels
                    &&& a.sample_rate == sample_rate
                },
                Err(e) => {
                    &&& e == Error::OutOfRange
                    &&& (channels == 0 || sample_rate == 0 || samples@.len() as int % (
                    channels as int) != 0)
                },
            },
    {
        if channels == 0 || sample_rate == 0 || samples.len() % (channels as usize) != 0 {
            return Err(Error::OutOfRange);
        }
        Ok(AudioData { samples, channels, sample_rate })
    }

    /// Down-mix to one channel in place: each frame becomes the average of its
    /// interleaved samples. A buffer that is already mono is left unchanged.
    pub fn to_mono(&mut self)
        requires
            old(self).wf(),
        ensures
            final (self).wf(),
            final (self).channels == 1,
            final (self).sample_rate == old(self).sample_rate,
            final (self).samples@.len() == old(self).frame_count(),
            forall|i: int|
                0 <= i < old(self).frame_count() ==> final (self).samples@[i] == old(
                    self,
                ).mono_sample(i),
    {
        if self.channels == 1 {
            proof {
                lemma_mono_frame_count(*self);
                assert forall|i: int| 0 <= i < self.frame_count() implies self.samples@[i]
                    == self.mono_sample(i) by {
                    lemma_mono_sample_identity(*self, i);
                }
            }
            return ;
        }
        let ch: usize = self.channels as usize;
        let total: usize = self.samples.len();
        let frames: usize = total / ch;
        let mut out: Vec<i16> = Vec::new();
        let mut i: usize = 0;
        while i < frames
            invariant
                old(self).wf(),
                self == old(self),
                2 <= ch == old(self).channels as int,
                total == self.samples@.len(),
                frames == old(self).frame_count(),
                i <= frames,
                out@.len() == i,
                forall|j: int| 0 <= j < i ==> out@[j] == old(self).mono_sample(j),
            decreases frames - i,
        {
            proof {
                assert(frames * ch == total) by {
                    lemma_fundamental_div_mod(total as int, ch as int);
                }
                assert(i * ch + ch <= frames * ch) by (nonlinear_arith)
                    requires
                        i + 1 <= frames,
                        ch >= 0,
                ;
            }
            let base: usize = i * ch;
            let mut sum: i64 = 0;
            let mut c: usize = 0;
            while c < ch
                invariant
                    old(self).wf(),
                    self == old(self),
                    2 <= ch == old(self).channels as int,
                    total == self.samples@.len(),
                    base + ch <= total,
                    c <= ch,
                    sum == sample_sum(self.samples@.subrange(base as int, base + c)),
                    -32768 * c <= sum <= 32767 * c,
                decreases ch - c,
            {
                proof {
                    let sub1 = self.samples@.subrange(base as int, base + c + 1);
                    assert(sub1.drop_last() =~= self.samples@.subrange(base as int, base + c));
                    assert(sub1.last() == self.samples@[base + c]);
                }
                sum = sum + self.samples[base + c] as i64;
                c = c + 1;
            }
            proof {
                assert((i as int) * (ch as int) + ch == (i as int + 1) * (ch as int))
                    by (nonlinear_arith);
                assert(self.samples@.subrange(base as int, base + ch) == old(self).frame_seq(
                    i as int,
                ));
            }
            let avg: i64 = if sum >= 0 {
                proof {
                    lemma_div_is_ordered(sum as int, 32767 * ch as int, ch as int);
                    assert(32767 * ch as int == (ch as int) * 32767);
                    lemma_div_multiples_vanish(32767, ch as int);
                    lemma_div_pos_is_pos(sum as int, ch as int);
                }
                ((sum as u64) / (ch as u64)) as i64
            } else {
                proof {
                    lemma_div_is_ordered(-sum as int, 32768 * ch as int, ch as int);
                    assert(32768 * ch as int == (ch as int) * 32768);
                    lemma_div_multiples_vanish(32768, ch as int);
                    lemma_div_pos_is_pos(-sum as int, ch as int);
                }
                -((((-sum) as u64) / (ch as u64)) as i64)
            };
            out.push(avg as i16);
            i = i + 1;
        }
        self.samples = out;
        self.channels = 1;
        proof {
            let s = final (self).samples@;
            assert(s.len() as int == 1 * (s.len() as int));
            lemma_div_multiples_vanish(s.len() as int, 1);
        }
    }

    /// Keep every k-th frame, where k is the ratio of the current rate to the
    /// target rate; fails when the current rate is not an integer multiple of
    /// the target.
    pub fn downsample(&mut self, target_rate: u32) -> (r: Result<(), AudioError>)
        requires
            old(self).wf(),
            target_rate >= 1,
        ensures
            match r {
                Ok(()) => {
                    &&& old(self).sample_rate % target_rate == 0
                    &&& final (self).wf()
                    &&& final (self).channels == old(self).channels
                    &&& final (self).sample_rate == target_rate
                    &&& final (self).frame_count() == old(self).frame_count() / ((old(
                        self,
                    ).sample_rate as int) / (target_rate as int))
                    &&& forall|i: int|
                        0 <= i < final (self).frame_count() ==> final (self).frame_seq(i) == old(
                            self,
                        ).frame_seq(i * ((old(self).sample_rate as int) / (target_rate as int)))
                },
                Err(e) => {
                    &&& e == AudioError::UnsupportedRate
                    &&& old(self).sample_rate % target_rate != 0
                    &&& *final (self) == *old(self)
                },
            },
    {
        if self.sample_rate % target_rate != 0 {
            return Err(AudioError::UnsupportedRate);
        }
        proof {
            let r = self.sample_rate as int;
            let t = target_rate as int;
            lemma_fundamental_div_mod(r, t);
            if r / t <= 0 {
                assert(t * (r / t) <= 0) by (nonlinear_arith)
                    requires
                        t >= 1,
                        r / t <= 0,
                ;
                assert(false);
            }
        }
        let k: usize = (self.sample_rate / target_rate) as usize;
        let ch: usize = self.channels as usize;
        let total: usize = self.samples.len();
        let frames: usize = total / ch;
        let kept: usize = frames / k;
        let mut out: Vec<i16> = Vec::new();
        let mut i: usize = 0;
        while i < kept
            invariant
                old(self).wf(),
                self == old(self),
                1 <= ch == old(self).channels as int,
                1 <= k,
                total == self.samples@.len(),
                frames == old(self).frame_count(),
                kept == frames as int / k as int,
                i <= kept,
                out@.len() == i * ch,
                forall|j: int, c: int|
                    0 <= j < i && 0 <= c < ch ==> #[trigger] out@[j * ch + c] == old(
                        self,
                    ).samples@[(j * k) * ch + c],
            decreases kept - i,
        {
            proof {
                assert(i * k + 1 <= frames) by (nonlinear_arith)
                    requires
                        0 <= i < kept,
                        kept == frames as int / k as int,
                        1 <= k,
                        0 <= frames,
                {
                    lemma_fundamental_div_mod(frames as int, k as int);
                    vstd::arithmetic::div_mod::lemma_mod_bound(frames as int, k as int);
                }
                assert((i * k) * ch + ch <= frames * ch) by (nonlinear_arith)
                    requires
                        i * k + 1 <= frames,
                        ch >= 0,
                ;
                assert(frames * ch == total) by {
                    lemma_fundamental_div_mod(total as int, ch as int);
                }
                assert(i * k * ch == (i * k) * ch) by (nonlinear_arith);
            }
            let base: usize = i * k * ch;
            let mut c: usize = 0;
            while c < ch
                invariant
                    old(self).wf(),
                    self == old(self),
                    0 <= i < kept,
                    total == self.samples@.len(),
                    base + ch <= total,
                    c <= ch,
                    out@.len() == i * ch + c,
                    base == (i * k) * ch,
                    1 <= ch == old(self).channels as int,
                    1 <= k,
                    forall|j: int, cc: int|
                        0 <= j < i && 0 <= cc < ch ==> #[trigger] out@[j * ch + cc] == old(
                            self,
                        ).samples@[(j * k) * ch + cc],
                    forall|cc: int|
                        0 <= cc < c ==> #[trigger] out@[i * ch + cc] == old(self).samples@[base
                            + cc],
                decreases ch - c,
            {
                out.push(self.samples[base + c]);
                c = c + 1;
                proof {
                    assert forall|j: int, cc: int|
                        0 <= j < i && 0 <= cc < ch implies #[trigger] out@[j * ch + cc] == old(
                        self,
                    ).samples@[(j * k) * ch + cc] by {
                        assert(j * ch + cc < i * ch) by (nonlinear_arith)
                            requires
                                0 <= j < i,
                                0 <= cc < ch,
                        ;
                    }
                }
            }
            i = i + 1;
            proof {
                assert(i * ch == (i - 1) * ch + ch) by (nonlinear_arith);
            }
        }
        let new_rate: u32 = target_rate;
        self.samples = out;
        self.sample_rate = new_rate;
        proof {
            lemma_downsample_shape(*old(self), *final (self), k as int, kept as int);
        }
        Ok(())
    }

    /// Duration in milliseconds: frames times 1000, divided by the sample rate.
    pub fn duration_ms(&self) -> (r: u64)
        requires
            self.wf(),
            self.spec_duration_ms() <= u64::MAX,
        ensures
            r == self.spec_duration_ms(),
    {
        let frames: u128 = (self.samples.len() / (self.channels as usize)) as u128;
        let ms: u128 = frames * 1000 / (self.sample_rate as u128);
        ms as u64
    }
}

/// After keeping every k-th of the original frames, the new buffer's frames
/// are exactly the picked ones.
proof fn lemma_downsample_shape(a: AudioData, b: AudioData, k: int, kept: int)
    requires
        a.wf(),
        k >= 1,
        kept == a.frame_count() / k,
        b.channels == a.channels,
        b.samples@.len() == kept * (a.channels as int),
        forall|j: int, c: int|
            0 <= j < kept && 0 <= c < a.channels as int ==> #[trigger] b.samples@[j * (
            a.channels as int) + c] == a.samples@[(j * k) * (a.channels as int) + c],
    ensures
        b.samples@.len() as int % (b.channels as int) == 0,
        b.frame_count() == kept,
        forall|i: int| 0 <= i < kept ==> b.frame_seq(i) == a.frame_seq(i * k),
{
    let ch = a.channels as int;
    lemma_mod_multiples_basic(kept, ch);
    assert(kept * ch == ch * kept) by (nonlinear_arith);
    lemma_div_multiples_vanish(kept, ch);
    assert forall|i: int| 0 <= i < kept implies b.frame_seq(i) == a.frame_seq(i * k) by {
        assert(i * k + 1 <= a.frame_count()) by (nonlinear_arith)
            requires
                0 <= i < kept,
                kept == a.frame_count() / k,
                1 <= k,
                0 <= a.frame_count(),
        {
            lemma_fundamental_div_mod(a.frame_count(), k);
            vstd::arithmetic::div_mod::lemma_mod_bound(a.frame_count(), k);
        }
        assert((i * k) * ch + ch <= a.frame_count() * ch) by (nonlinear_arith)
            requires
                i * k + 1 <= a.frame_count(),
                ch >= 0,
        ;
        assert(a.frame_count() * ch == a.samples@.len()) by {
            lemma_fundamental_div_mod(a.samples@.len() as int, ch);
        }
        assert((i + 1) * ch == i * ch + ch) by (nonlinear_arith);
        assert((i + 1) * ch <= b.samples@.len()) by (nonlinear_arith)
            requires
                i + 1 <= kept,
                ch >= 0,
                b.samples@.len() == kept * ch,
        ;
        assert((i * k + 1) * ch == (i * k) * ch + ch) by (nonlinear_arith);
        assert(b.frame_seq(i) =~= a.frame_seq(i * k)) by {
            assert forall|c: int| 0 <= c < ch implies b.frame_seq(i)[c] == a.frame_seq(i * k)[c] by {
                assert(b.samples@[i * ch + c] == a.samples@[(i * k) * ch + c]);
                assert(b.frame_seq(i)[c] == b.samples@[i * ch + c]);
                assert(a.frame_seq(i * k)[c] == a.samples@[(i * k) * ch + c]);
            }
        }
    }
}


/// A mono buffer has one frame per sample.
pub proof fn lemma_mono_frame_count(a: AudioData)
    requires
        a.channels == 1,
    ensures
        a.frame_count() == a.samples@.len(),
{
    let n = a.samples@.len() as int;
    assert(n == 1 * n);
    lemma_div_multiples_vanish(n, 1);
}

/// The average of a mono frame is its own sample: down-mixing changes
/// nothing on audio that is already mono.
pub proof fn lemma_mono_sample_identity(a: AudioData, i: int)
    requires
        a.channels == 1,
        0 <= i < a.frame_count(),
    ensures
        a.mono_sample(i) == a.samples@[i],
{
    lemma_mono_frame_count(a);
    let s = a.samples@;
    let fs = a.frame_seq(i);
    assert(fs.len() == 1);
    assert(fs[0] == s[i * 1 + 0]);
    assert(fs.last() == s[i]);
    assert(fs.drop_last() =~= Seq::<i16>::empty());
    assert(sample_sum(Seq::<i16>::empty()) == 0);
    assert(sample_sum(fs) == s[i]);
    let v = s[i] as int;
    assert(v == 1 * v);
    lemma_div_multiples_vanish(v, 1);
    assert(-v == 1 * (-v));
    lemma_div_multiples_vanish(-v, 1);
}

} // verus!
