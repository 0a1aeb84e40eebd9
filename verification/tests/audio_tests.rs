use varys::audio::AudioData;
use varys::error::{AudioError, Error};
use varys::recognise::Recogniser;

fn stereo(samples: Vec<i16>, rate: u32) -> AudioData {
    AudioData::new(samples, 2, rate).unwrap()
}

#[test]
fn to_mono_averages_interleaved_frames() {
    let mut audio = stereo(vec![10, 20, -10, -30, 7, 8], 48000);
    audio.to_mono();
    assert_eq!(audio.channels, 1);
    assert_eq!(audio.samples, vec![15, -20, 7]);
    assert_eq!(audio.sample_rate, 48000);
}

#[test]
fn to_mono_keeps_frame_count() {
    let mut audio = stereo(vec![1, 2, 3, 4, 5, 6, 7, 8], 44100);
    audio.to_mono();
    assert_eq!(audio.samples.len(), 4);
}

#[test]
fn to_mono_on_mono_is_a_no_op() {
    let err = AudioData::new(vec![3, -4, 5], 0, 16000).unwrap_err();
    assert_eq!(err, Error::OutOfRange);
    let mut audio = AudioData::new(vec![3, -4, 5], 1, 16000).unwrap();
    audio.to_mono();
    assert_eq!(audio.samples, vec![3, -4, 5]);
    assert_eq!(audio.channels, 1);
}

#[test]
fn unsupported_downsample_rate_fails() {
    let mut audio = AudioData::new(vec![0; 441], 1, 44100).unwrap();
    let result = audio.downsample(16000);
    assert_eq!(result, Err(AudioError::UnsupportedRate));
    assert_eq!(audio.sample_rate, 44100);
    assert_eq!(audio.samples.len(), 441);
}

#[test]
fn downsample_keeps_every_kth_frame() {
    let mut audio = AudioData::new(vec![0, 1, 2, 3, 4, 5, 6, 7], 1, 32000).unwrap();
    audio.downsample(16000).unwrap();
    assert_eq!(audio.sample_rate, 16000);
    assert_eq!(audio.samples, vec![0, 2, 4, 6]);
}

#[test]
fn downsample_output_count_formula() {
    // 10 frames at 48000 Hz down to 16000 Hz: k = 3, so 10 / 3 = 3 frames kept.
    let mut audio = AudioData::new((0..10).collect(), 1, 48000).unwrap();
    audio.downsample(16000).unwrap();
    assert_eq!(audio.samples.len(), 10 / 3);
    assert_eq!(audio.samples, vec![0, 3, 6]);
}

#[test]
fn duration_is_frames_per_rate() {
    let audio = AudioData::new(vec![0; 16000], 1, 16000).unwrap();
    assert_eq!(audio.duration_ms(), 1000);
    let audio = AudioData::new(vec![0; 8000], 2, 8000).unwrap();
    assert_eq!(audio.duration_ms(), 500);
}

#[test]
fn ragged_frames_are_rejected() {
    assert_eq!(AudioData::new(vec![1, 2, 3], 2, 44100).unwrap_err(), Error::OutOfRange);
    assert_eq!(AudioData::new(vec![1, 2], 2, 0).unwrap_err(), Error::OutOfRange);
}

#[test]
fn preprocess_downmixes_and_resamples() {
    let mut audio = stereo(vec![10, 20, 30, 40, 50, 60, 70, 80], 32000);
    Recogniser::preprocess(&mut audio).unwrap();
    assert_eq!(audio.channels, 1);
    assert_eq!(audio.sample_rate, 16000);
    // four mono frames 15, 35, 55, 75; every second one kept
    assert_eq!(audio.samples, vec![15, 55]);
}

#[test]
fn preprocess_rejects_empty_audio() {
    let mut audio = AudioData::new(Vec::new(), 1, 16000).unwrap();
    assert_eq!(Recogniser::preprocess(&mut audio), Err(AudioError::Empty));
}

#[test]
fn preprocess_rejects_unsupported_rate() {
    let mut audio = AudioData::new(vec![1, 2, 3], 1, 44100).unwrap();
    assert_eq!(Recogniser::preprocess(&mut audio), Err(AudioError::UnsupportedRate));
}

#[test]
fn preprocess_checks_the_rate_before_emptiness() {
    // an empty buffer at an unsupported rate reports the rate first
    let mut audio = AudioData::new(Vec::new(), 1, 44100).unwrap();
    assert_eq!(Recogniser::preprocess(&mut audio), Err(AudioError::UnsupportedRate));
}

#[test]
fn preprocess_passes_prepared_audio_through_unchanged() {
    let mut audio = AudioData::new(vec![5, -3, 9], 1, 16000).unwrap();
    Recogniser::preprocess(&mut audio).unwrap();
    assert_eq!(audio.samples, vec![5, -3, 9]);
    // a second run changes nothing either: preprocessing is idempotent
    Recogniser::preprocess(&mut audio).unwrap();
    assert_eq!(audio.samples, vec![5, -3, 9]);
    assert_eq!(audio.channels, 1);
    assert_eq!(audio.sample_rate, 16000);
}
