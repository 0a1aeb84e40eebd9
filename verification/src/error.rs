use vstd::prelude::*;

verus! {

/// Failures of audio preprocessing.
#[derive(Clone, Copy, Debug, PartialEq, Eq, Structural)]
pub enum AudioError {
    /// The current sample rate is not an integer multiple of the requested one.
    UnsupportedRate,
    /// There are no samples to work on.
    Empty,
}

/// Failures of the session store.
#[derive(Clone, Copy, Debug, PartialEq, Eq, Structural)]
pub enum StoreError {
    Connect,
    Query,
    NotFound,
}

/// Everything that can go wrong while driving a session of interactions.
#[derive(Clone, Copy, Debug, PartialEq, Eq, Structural)]
pub enum Error {
    AudioInputDeviceNotFound,
    ConfigurationNotSupported,
    StillRecording,
    RecordingFailed,
    OutOfRange,
    StreamBuild,
    StreamPlay,
    SpeakerError,
    SnifferError,
    Recognition,
    ModelLoad,
    AudioPreprocess(AudioError),
    Store(StoreError),
    FileIo,
    NoVoiceProvided,
    Monitoring,
}

} // verus!
