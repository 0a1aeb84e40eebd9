use varys::error::Error;
use varys::listen::{
    InputConfigDesc, Listener, LoudnessTracker, SilenceGate, mean_amplitude,
    DEFAULT_RECORDING_TIMEOUT_MS,
};

fn cfg(is_float_format: bool, max_sample_rate: u32, channels: u16) -> InputConfigDesc {
    InputConfigDesc { is_float_format, max_sample_rate, channels }
}

#[test]
fn missing_device_is_reported() {
    assert_eq!(Listener::new(None).unwrap_err(), Error::AudioInputDeviceNotFound);
}

#[test]
fn no_usable_configuration_is_reported() {
    let configs = vec![cfg(false, 48000, 2), cfg(true, 44100, 2)];
    assert_eq!(Listener::new(Some(configs)).unwrap_err(), Error::ConfigurationNotSupported);
}

#[test]
fn first_usable_configuration_wins() {
    let configs = vec![cfg(false, 48000, 2), cfg(true, 44100, 1), cfg(true, 48000, 2), cfg(true, 32000, 1)];
    let listener = Listener::new(Some(configs)).unwrap();
    assert_eq!(listener.device_config, cfg(true, 48000, 2));
    assert_eq!(listener.recording_timeout, Some(DEFAULT_RECORDING_TIMEOUT_MS));
}

#[test]
fn too_many_channels_are_out_of_range() {
    let listener = Listener::new(Some(vec![cfg(true, 16000, 300)])).unwrap();
    assert_eq!(listener.channel_count(), Err(Error::OutOfRange));
    let listener = Listener::new(Some(vec![cfg(true, 16000, 2)])).unwrap();
    assert_eq!(listener.channel_count(), Ok(2));
}

#[test]
fn tracker_emits_one_average_per_full_window() {
    let mut tracker = LoudnessTracker::new();
    for i in 0..1023 {
        assert_eq!(tracker.add_sample(100), None, "no emission before a full window (sample {i})");
    }
    assert_eq!(tracker.add_sample(100), Some(100));
    // the next window starts counting from zero again
    assert_eq!(tracker.add_sample(100), None);
}

#[test]
fn tracker_average_is_the_window_mean() {
    let mut tracker = LoudnessTracker::new();
    // half the window loud, half quiet
    for _ in 0..512 {
        assert_eq!(tracker.add_sample(1000), None);
    }
    for i in 0..512 {
        let r = tracker.add_sample(0);
        if i == 511 {
            assert_eq!(r, Some(500));
        } else {
            assert_eq!(r, None);
        }
    }
}

#[test]
fn zero_silence_duration_stops_at_the_first_window() {
    // a zero-length silence requirement is met at once, so the first
    // loudness datum ends the recording — in particular the first one at or
    // below the threshold
    let mut quiet = SilenceGate::new(0, 10000, None, 0);
    assert!(quiet.observe(64, 10000));
    let mut loud = SilenceGate::new(0, 10000, None, 0);
    assert!(loud.observe(64, 20000));
}

#[test]
fn silence_gate_ties_count_as_silence() {
    // the threshold compare is strict: an average equal to the threshold
    // does not count as audio
    let mut gate = SilenceGate::new(1000, 10000, None, 0);
    assert!(!gate.observe(64, 10000));
    assert_eq!(gate.last_audio_detected, 0);
    assert!(!gate.observe(128, 10001));
    assert_eq!(gate.last_audio_detected, 128);
}

#[test]
fn silence_timeout_returns_after_the_silence_duration() {
    // one second of required silence, threshold at half scale, quiet stream
    let mut gate = SilenceGate::new(1000, 500000, None, 0);
    let mut stopped_at = None;
    for window in 1..100u64 {
        let now = window * 64;
        if gate.observe(now, 100000) {
            stopped_at = Some(now);
            break;
        }
    }
    // ~1 s, within one 64 ms window
    let t = stopped_at.unwrap();
    assert!(t >= 1000 && t <= 1064, "stopped at {t}");
}

#[test]
fn recording_timeout_fires_before_silence() {
    // loud stream that never goes quiet, capped at half a second
    let mut gate = SilenceGate::new(10000, 1000, Some(500), 0);
    let mut stopped_at = None;
    for window in 1..100u64 {
        let now = window * 64;
        if gate.observe(now, 900000) {
            stopped_at = Some(now);
            break;
        }
    }
    let t = stopped_at.unwrap();
    assert!(t >= 500 && t <= 564, "stopped at {t}");
}

#[test]
fn mean_amplitude_is_the_mean() {
    assert_eq!(mean_amplitude(&vec![2, 4, 6]), 4);
    assert_eq!(mean_amplitude(&vec![]), 0);
    assert_eq!(mean_amplitude(&vec![7]), 7);
}
