use simple_moving_average::{NoSumSMA, SMA};

use vstd::arithmetic::div_mod::{
    lemma_div_is_ordered, lemma_div_multiples_vanish, lemma_div_pos_is_pos,
};
use vstd::prelude::*;

use crate::error::Error;
use crate::recognise::SAMPLE_RATE;

verus! {

/// How many consecutive absolute amplitudes one loudness datum averages.
pub const MOVING_AVERAGE_WINDOW_SIZE: u32 = 1024;

/// The fixed-point amplitude scale: this value stands for full scale (1.0).
pub const AMPLITUDE_SCALE: u32 = 1000000;

/// The default cap on the length of one recording, in milliseconds.
pub const DEFAULT_RECORDING_TIMEOUT_MS: u64 = 60000;

#[verifier::external_type_specification]
#[verifier::external_body]
#[verifier::reject_recursive_types(Sample)]
#[verifier::reject_recursive_types(Divisor)]
pub struct ExNoSumSMA<Sample, Divisor, const WINDOW_SIZE: usize>(
    NoSumSMA<Sample, Divisor, WINDOW_SIZE>,
);

/// What a moving-average accumulator holds: the amplitudes of its window,
/// oldest first.
pub uninterp spec fn sma_window(s: NoSumSMA<u32, u32, 1024>) -> Seq<u32>;

/// The sum of a window of amplitudes.
pub open spec fn amp_sum(s: Seq<u32>) -> int
    decreases s.len(),
{
    if s.len() == 0 {
        0
    } else {
        amp_sum(s.drop_last()) + s.last()
    }
}

pub proof fn lemma_amp_sum_bound(s: Seq<u32>, cap: int)
    requires
        forall|i: int| 0 <= i < s.len() ==> #[trigger] s[i] <= cap,
        cap >= 0,
    ensures
        0 <= amp_sum(s) <= s.len() * cap,
    decreases s.len(),
{
    if s.len() > 0 {
        assert forall|i: int| 0 <= i < s.drop_last().len() implies #[trigger] s.drop_last()[i]
            <= cap by {
            assert(s.drop_last()[i] == s[i]);
        }
        lemma_amp_sum_bound(s.drop_last(), cap);
        assert(s[s.len() - 1] <= cap);
        assert((s.len() - 1) * cap + cap == s.len() * cap) by (nonlinear_arith);
    }
}

/// Relies on `NoSumSMA::new`: a fresh accumulator holds no samples.
#[verifier::external_body]
fn sma_new() -> (r: NoSumSMA<u32, u32, 1024>)
    ensures
        sma_window(r) == Seq::<u32>::empty(),
{
    NoSumSMA::new()
}

/// Relies on `NoSumSMA::add_sample`, a ring-buffer push: the new amplitude
/// joins the window and, at capacity, the oldest one leaves.
#[verifier::external_body]
fn sma_add(s: &mut NoSumSMA<u32, u32, 1024>, x: u32)
    ensures
        sma_window(*final (s)) == if sma_window(*old(s)).len() < 1024 {
            sma_window(*old(s)).push(x)
        } else {
            sma_window(*old(s)).drop_first().push(x)
        },
{
    s.add_sample(x)
}

/// Relies on `NoSumSMA::get_average`: the sum of the window divided by its
/// length, and zero for an empty window. The sum is accumulated in the sample
/// type, so it must fit it.
#[verifier::external_body]
fn sma_average(s: &NoSumSMA<u32, u32, 1024>) -> (r: u32)
    requires
        amp_sum(sma_window(*s)) <= u32::MAX,
    ensures
        r == if sma_window(*s).len() == 0 {
            0int
        } else {
            amp_sum(sma_window(*s)) / (sma_window(*s).len() as int)
        },
{
    s.get_average()
}

/// A fixed-window moving average of absolute amplitudes that emits one
/// loudness datum each time a full window of samples has been added.
pub struct LoudnessTracker {
    pub sma: NoSumSMA<u32, u32, 1024>,
    /// Samples added since the last emitted average.
    pub sample_count: u32,
}

impl LoudnessTracker {
    /// Every windowed amplitude is on the fixed-point scale and the window
    /// never outgrows its size.
    pub closed spec fn wf(self) -> bool {
        &&& self.sample_count < MOVING_AVERAGE_WINDOW_SIZE
        &&& sma_window(self.sma).len() <= 1024
        &&& forall|i: int|
            0 <= i < sma_window(self.sma).len() ==> #[trigger] sma_window(self.sma)[i]
                <= AMPLITUDE_SCALE
    }

    pub closed spec fn window(self) -> Seq<u32> {
        sma_window(self.sma)
    }

    pub fn new() -> (r: LoudnessTracker)
        ensures
            r.wf(),
            r.window() == Seq::<u32>::empty(),
            r.sample_count == 0,
    {
        LoudnessTracker { sma: sma_new(), sample_count: 0 }
    }

    /// Add one absolute amplitude. Every complete window emits the window's
    /// average, rounded down.
    pub fn add_sample(&mut self, amplitude: u32) -> (r: Option<u32>)
        requires
            old(self).wf(),
            amplitude <= AMPLITUDE_SCALE,
        ensures
            final (self).wf(),
            final (self).window() == if old(self).window().len() < 1024 {
                old(self).window().push(amplitude)
            } else {
                old(self).window().drop_first().push(amplitude)
            },
            final (self).sample_count == if old(self).sample_count + 1
                == MOVING_AVERAGE_WINDOW_SIZE {
                0u32
            } else {
                (old(self).sample_count + 1) as u32
            },
            match r {
                Some(avg) => {
                    &&& old(self).sample_count + 1 == MOVING_AVERAGE_WINDOW_SIZE
                    &&& avg == amp_sum(final (self).window()) / (final (
                    self).window().len() as int)
                    &&& avg <= AMPLITUDE_SCALE
                },
                None => old(self).sample_count + 1 != MOVING_AVERAGE_WINDOW_SIZE,
            },
    {
        sma_add(&mut self.sma, amplitude);
        proof {
            assert forall|i: int| 0 <= i < sma_window(self.sma).len() implies #[trigger] sma_window(
                self.sma,
            )[i] <= AMPLITUDE_SCALE by {
                let w0 = sma_window(old(self).sma);
                if w0.len() < 1024 {
                    if i < w0.len() {
                        assert(sma_window(self.sma)[i] == w0[i]);
                    }
                } else {
                    if i < sma_window(self.sma).len() - 1 {
                        assert(sma_window(self.sma)[i] == w0[i + 1]);
                    }
                }
            }
        }
        self.sample_count = self.sample_count + 1;
        if self.sample_count >= MOVING_AVERAGE_WINDOW_SIZE {
            self.sample_count = 0;
            proof {
                let w = sma_window(self.sma);
                lemma_amp_sum_bound(w, AMPLITUDE_SCALE as int);
                assert(w.len() * AMPLITUDE_SCALE <= 1024 * AMPLITUDE_SCALE) by (nonlinear_arith)
                    requires
                        w.len() <= 1024,
                ;
                if w.len() > 0 {
                    lemma_div_pos_is_pos(amp_sum(w), w.len() as int);
                    lemma_div_is_ordered(
                        amp_sum(w),
                        (w.len() as int) * (AMPLITUDE_SCALE as int),
                        w.len() as int,
                    );
                    assert((w.len() as int) * (AMPLITUDE_SCALE as int) == (AMPLITUDE_SCALE as int)
                        * (w.len() as int)) by (nonlinear_arith);
                    lemma_div_multiples_vanish(AMPLITUDE_SCALE as int, w.len() as int);
                }
            }
            let avg = sma_average(&self.sma);
            Some(avg)
        } else {
            None
        }
    }
}

/// One enumerated input configuration of an audio device, reduced to what the
/// choice of a configuration reads.
#[derive(Clone, Copy, Debug, PartialEq, Eq, Structural)]
pub struct InputConfigDesc {
    /// Whether the configuration's sample format is 32-bit float.
    pub is_float_format: bool,
    /// The configuration's maximum sample rate in Hz.
    pub max_sample_rate: u32,
    /// The configuration's channel count.
    pub channels: u16,
}

/// A configuration the listener can use: float samples at a rate the
/// recogniser's fixed rate divides.
pub open spec fn config_matches(c: InputConfigDesc) -> bool {
    c.is_float_format && c.max_sample_rate % SAMPLE_RATE == 0
}

/// Position i holds the first usable configuration of the list.
pub open spec fn first_matching(cfgs: Seq<InputConfigDesc>, i: int) -> bool {
    &&& 0 <= i < cfgs.len()
    &&& config_matches(cfgs[i])
    &&& forall|j: int| 0 <= j < i ==> !config_matches(#[trigger] cfgs[j])
}

/// A listener: the input configuration it records with and the cap on how
/// long one recording may run.
#[derive(Debug)]
pub struct Listener {
    pub device_config: InputConfigDesc,
    /// The optional maximum duration to record for, in milliseconds.
    pub recording_timeout: Option<u64>,
}

impl Listener {
    /// Choose the input configuration, given what the host reports: `None`
    /// when there is no default input device, otherwise that device's
    /// supported configurations in their enumerated order. The first
    /// configuration with float samples and a usable maximum rate wins.
    pub fn new(device_configs: Option<Vec<InputConfigDesc>>) -> (r: Result<Listener, Error>)
        ensures
            match r {
                Ok(l) => {
                    &&& device_configs is Some
                    &&& exists|i: int| #[trigger] first_matching((device_configs->Some_0)@, i)
                        && (device_configs->Some_0)@[i] == l.device_config
                    &&& l.recording_timeout == Some(DEFAULT_RECORDING_TIMEOUT_MS)
                },
                Err(e) => match device_configs {
                    None => e == Error::AudioInputDeviceNotFound,
                    Some(cfgs) => {
                        &&& e == Error::ConfigurationNotSupported
                        &&& forall|j: int|
                            0 <= j < cfgs@.len() ==> !config_matches(#[trigger] cfgs@[j])
                    },
                },
            },
    {
        let cfgs = match &device_configs {
            None => {
                return Err(Error::AudioInputDeviceNotFound);
            },
            Some(cfgs) => cfgs,
        };
        let mut i: usize = 0;
        while i < cfgs.len()
            invariant
                device_configs is Some && device_configs->Some_0 == *cfgs,
                i <= cfgs@.len(),
                forall|j: int| 0 <= j < i ==> !config_matches(#[trigger] cfgs@[j]),
            decreases cfgs@.len() - i,
        {
            let c = cfgs[i];
            if c.is_float_format && c.max_sample_rate % SAMPLE_RATE == 0 {
                proof {
                    assert(first_matching(cfgs@, i as int) && cfgs@[i as int] == c);
                }
                return Ok(
                    Listener {
                        device_config: c,
                        recording_timeout: Some(DEFAULT_RECORDING_TIMEOUT_MS),
                    },
                );
            }
            i = i + 1;
        }
        Err(Error::ConfigurationNotSupported)
    }

    /// The channel count of the chosen configuration, narrowed for audio
    /// buffers; more channels than a byte can count is out of range.
    pub fn channel_count(&self) -> (r: Result<u8, Error>)
        ensures
            match r {
                Ok(c) => self.device_config.channels <= 255 && c == self.device_config.channels,
                Err(e) => e == Error::OutOfRange && self.device_config.channels > 255,
            },
    {
        if self.device_config.channels <= 255 {
            Ok(self.device_config.channels as u8)
        } else {
            Err(Error::OutOfRange)
        }
    }
}

/// The silence-detection state of one recording: when it started, when audio
/// was last heard, and the policy it runs under.
pub struct SilenceGate {
    /// How long a silence must last before the recording stops, in ms.
    pub silence_duration: u64,
    /// The loudness above which a window counts as audio, on the fixed-point
    /// amplitude scale. The comparison is strict: ties count as silence.
    pub threshold: u32,
    /// The optional hard cap on the recording's length, in ms.
    pub recording_timeout: Option<u64>,
    /// When the recording started, in ms.
    pub started: u64,
    /// When audio was last heard, in ms.
    pub last_audio_detected: u64,
}

impl SilenceGate {
    /// The detector state once one loudness datum has been seen at time `now`.
    pub open spec fn spec_after(self, now: u64, average: u32) -> SilenceGate {
        SilenceGate {
            last_audio_detected: if average > self.threshold {
                now
            } else {
                self.last_audio_detected
            },
            ..self
        }
    }

    /// Whether this datum stops the recording: the silence has lasted at
    /// least the required duration, or the recording has run at least as
    /// long as its cap.
    pub open spec fn spec_stops(self, now: u64, average: u32) -> bool {
        let g = self.spec_after(now, average);
        ||| g.last_audio_detected + g.silence_duration <= now
        ||| match g.recording_timeout {
            Some(t) => g.started + t <= now,
            None => false,
        }
    }

    /// A gate that has just started listening: the start counts as the last
    /// time audio was heard.
    pub fn new(silence_duration: u64, threshold: u32, recording_timeout: Option<u64>, now: u64) -> (r:
        SilenceGate)
        ensures
            r.silence_duration == silence_duration,
            r.threshold == threshold,
            r.recording_timeout == recording_timeout,
            r.started == now,
            r.last_audio_detected == now,
    {
        SilenceGate {
            silence_duration,
            threshold,
            recording_timeout,
            started: now,
            last_audio_detected: now,
        }
    }

    /// See one loudness datum; report whether the recording stops here.
    pub fn observe(&mut self, now: u64, average: u32) -> (stop: bool)
        ensures
            *final (self) == old(self).spec_after(now, average),
            stop == old(self).spec_stops(now, average),
    {
        if average > self.threshold {
            self.last_audio_detected = now;
        }
        let silent_long_enough = (self.last_audio_detected as u128 + self.silence_duration as u128)
            <= now as u128;
        let timed_out = match self.recording_timeout {
            Some(t) => (self.started as u128 + t as u128) <= now as u128,
            None => false,
        };
        silent_long_enough || timed_out
    }
}

/// A zero silence duration stops the recording at the first loudness datum —
/// in particular at the first window that does not rise above the threshold.
pub proof fn lemma_zero_silence_stops_at_first_window(g: SilenceGate, now: u64, average: u32)
    requires
        g.silence_duration == 0,
        g.last_audio_detected <= now,
    ensures
        g.spec_stops(now, average),
{
}

/// The hard timeout stops the recording whatever the loudness: every window
/// seen once the cap has been reached is the last.
pub proof fn lemma_timeout_stops(g: SilenceGate, now: u64, average: u32, t: u64)
    requires
        g.recording_timeout == Some(t),
        g.started + t <= now,
    ensures
        g.spec_stops(now, average),
{
}

/// The mean of the emitted averages; used to calibrate an ambient-noise
/// threshold. An empty observation means zero.
pub fn mean_amplitude(averages: &Vec<u32>) -> (r: u32)
    ensures
        r == if averages@.len() == 0 {
            0int
        } else {
            amp_sum(averages@) / (averages@.len() as int)
        },
{
    if averages.len() == 0 {
        return 0;
    }
    let mut sum: u128 = 0;
    let mut i: usize = 0;
    while i < averages.len()
        invariant
            i <= averages@.len(),
            averages@.len() <= usize::MAX,
            sum == amp_sum(averages@.subrange(0, i as int)),
            sum <= (i as int) * (u32::MAX as int),
        decreases averages@.len() - i,
    {
        proof {
            let s1 = averages@.subrange(0, i as int + 1);
            assert(s1.drop_last() =~= averages@.subrange(0, i as int));
            assert(s1.last() == averages@[i as int]);
            assert((i as int) * (u32::MAX as int) + u32::MAX == (i as int + 1) * (u32::MAX as int))
                by (nonlinear_arith);
            assert((i as int + 1) * (u32::MAX as int) <= (usize::MAX as int) * (u32::MAX as int))
                by (nonlinear_arith)
                requires
                    i as int + 1 <= usize::MAX as int,
            ;
        }
        sum = sum + averages[i] as u128;
        i = i + 1;
    }
    proof {
        assert(averages@.subrange(0, averages@.len() as int) =~= averages@);
        let n = averages@.len() as int;
        lemma_amp_sum_bound(averages@, u32::MAX as int);
        lemma_div_pos_is_pos(amp_sum(averages@), n);
        lemma_div_is_ordered(amp_sum(averages@), n * (u32::MAX as int), n);
        assert(n * (u32::MAX as int) == (u32::MAX as int) * n) by (nonlinear_arith);
        lemma_div_multiples_vanish(u32::MAX as int, n);
    }
    let r: u128 = sum / (averages.len() as u128);
    r as u32
}

} // verus!
