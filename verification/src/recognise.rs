use vstd::prelude::*;

use crate::audio::AudioData;
use crate::error::AudioError;

verus! {

/// The sample rate the speech recogniser expects; all audio is resampled to
/// this before recognition.
pub const SAMPLE_RATE: u32 = 16000;

/// The model files a recogniser can be built on.
pub const MODEL_LARGE: &'static str = "data/models/ggml-model-whisper-large-q5_0.bin";

pub const MODEL_MEDIUM_EN: &'static str = "data/models/ggml-model-whisper-medium.en-q5_0.bin";

/// The acoustic model a recogniser uses.
#[derive(Clone, Copy, Debug, PartialEq, Eq, Structural)]
pub enum Model {
    /// The multilingual large model.
    Large,
    /// The English medium model.
    Medium,
}

impl Model {
    /// The selector as it is stored in a session row.
    pub fn name(&self) -> (r: String)
        ensures
            r@ == match self {
                Model::Large => "large"@,
                Model::Medium => "medium"@,
            },
    {
        match self {
            Model::Large => String::from_str("large"),
            Model::Medium => String::from_str("medium"),
        }
    }
}

/// The speech recogniser: the model file it decodes with. The acoustic model
/// itself is loaded from this path by the speech stack around the library.
pub struct Recogniser {
    pub model_path: String,
}

impl Recogniser {
    /// The model file each selector stands for.
    pub open spec fn spec_model_path(model: Model) -> Seq<char> {
        match model {
            Model::Large => MODEL_LARGE@,
            Model::Medium => MODEL_MEDIUM_EN@,
        }
    }

    /// A recogniser on one of the supplied models.
    pub fn with_model(model: Model) -> (r: Recogniser)
        ensures
            r.model_path@ == Self::spec_model_path(model),
    {
        let model_path = match model {
            Model::Large => MODEL_LARGE,
            Model::Medium => MODEL_MEDIUM_EN,
        };
        Recogniser::with_model_path(model_path)
    }

    /// A recogniser on the model file at the given path.
    pub fn with_model_path(model_path: &str) -> (r: Recogniser)
        ensures
            r.model_path@ == model_path@,
    {
        Recogniser { model_path: String::from_str(model_path) }
    }

    /// Make audio fit for recognition: down-mix to mono, then resample to
    /// the fixed rate. A rate the fixed rate does not divide cannot be
    /// resampled — the buffer is still mono-mixed when that fails, as the
    /// rate check runs after the down-mix. A buffer with nothing left after
    /// resampling cannot be recognised. Audio that is already mono at the
    /// fixed rate passes through unchanged.
    pub fn preprocess(audio: &mut AudioData) -> (r: Result<(), AudioError>)
        requires
            old(audio).wf(),
        ensures
            final (audio).wf(),
            final (audio).channels == 1,
            match r {
                Ok(()) => {
                    &&& old(audio).sample_rate % SAMPLE_RATE == 0
                    &&& final (audio).sample_rate == SAMPLE_RATE
                    &&& final (audio).samples@.len() == old(audio).frame_count() / ((old(
                        audio,
                    ).sample_rate as int) / (SAMPLE_RATE as int))
                    &&& final (audio).samples@.len() > 0
                    &&& forall|i: int|
                        0 <= i < final (audio).samples@.len() ==> final (audio).samples@[i] == old(
                            audio,
                        ).mono_sample(i * ((old(audio).sample_rate as int) / (SAMPLE_RATE as int)))
                    &&& (old(audio).channels == 1 && old(audio).sample_rate == SAMPLE_RATE ==> final (
                    audio).samples@ == old(audio).samples@)
                },
                Err(AudioError::UnsupportedRate) => {
                    &&& old(audio).sample_rate % SAMPLE_RATE != 0
                    &&& final (audio).sample_rate == old(audio).sample_rate
                    &&& final (audio).samples@.len() == old(audio).frame_count()
                    &&& forall|i: int|
                        0 <= i < final (audio).samples@.len() ==> final (audio).samples@[i] == old(
                            audio,
                        ).mono_sample(i)
                },
                Err(AudioError::Empty) => {
                    &&& old(audio).sample_rate % SAMPLE_RATE == 0
                    &&& old(audio).frame_count() / ((old(audio).sample_rate as int) / (
                    SAMPLE_RATE as int)) == 0
                    &&& final (audio).sample_rate == SAMPLE_RATE
                    &&& final (audio).samples@.len() == 0
                },
            },
    {
        audio.to_mono();
        proof {
            crate::audio::lemma_mono_frame_count(*audio);
        }
        let ghost mid = *audio;
        audio.downsample(SAMPLE_RATE)?;
        proof {
            crate::audio::lemma_mono_frame_count(*audio);
            let k = (old(audio).sample_rate as int) / (SAMPLE_RATE as int);
            let fc = mid.frame_count();
            assert forall|i: int| 0 <= i < audio.samples@.len() implies audio.samples@[i] == old(
                audio,
            ).mono_sample(i * k) by {
                assert(i * k + 1 <= fc) by (nonlinear_arith)
                    requires
                        0 <= i < fc / k,
                        1 <= k,
                        0 <= fc,
                {
                    vstd::arithmetic::div_mod::lemma_fundamental_div_mod(fc, k);
                    vstd::arithmetic::div_mod::lemma_mod_bound(fc, k);
                }
                assert(audio.frame_seq(i) == mid.frame_seq(i * k));
                assert(audio.frame_seq(i)[0] == audio.samples@[i * 1 + 0]);
                assert(mid.frame_seq(i * k)[0] == mid.samples@[(i * k) * 1 + 0]);
                assert(mid.samples@[i * k] == old(audio).mono_sample(i * k));
            }
            if old(audio).channels == 1 && old(audio).sample_rate == SAMPLE_RATE {
                crate::audio::lemma_mono_frame_count(*old(audio));
                assert(SAMPLE_RATE as int == (SAMPLE_RATE as int) * 1);
                vstd::arithmetic::div_mod::lemma_div_multiples_vanish(1, SAMPLE_RATE as int);
                assert(k == 1);
                assert forall|i: int| 0 <= i < audio.samples@.len() implies audio.samples@[i]
                    == old(audio).samples@[i] by {
                    crate::audio::lemma_mono_sample_identity(*old(audio), i);
                    assert(audio.samples@[i] == old(audio).mono_sample(i * 1));
                }
                assert(audio.samples@ =~= old(audio).samples@);
            }
        }
        if audio.samples.len() == 0 {
            return Err(AudioError::Empty);
        }
        Ok(())
    }
}

/// The concatenation of recognised segments, in order.
pub open spec fn concat_views(s: Seq<Seq<char>>) -> Seq<char>
    decreases s.len(),
{
    if s.len() == 0 {
        Seq::empty()
    } else {
        concat_views(s.drop_last()) + s.last()
    }
}

/// Stitch the texts of all recognised segments together, in order. The
/// transcript of an interaction is exactly this concatenation.
pub fn assemble_transcript(segments: &Vec<String>) -> (r: String)
    ensures
        r@ == concat_views(segments@.map_values(|s: String| s@)),
{
    let mut r = String::new();
    let mut i: usize = 0;
    while i < segments.len()
        invariant
            i <= segments@.len(),
            r@ == concat_views(segments@.map_values(|s: String| s@).subrange(0, i as int)),
        decreases segments@.len() - i,
    {
        r.append(segments[i].as_str());
        proof {
            let views = segments@.map_values(|s: String| s@);
            let s1 = views.subrange(0, i as int + 1);
            assert(s1.drop_last() =~= views.subrange(0, i as int));
            assert(s1.last() == views[i as int]);
        }
        i = i + 1;
    }
    proof {
        let views = segments@.map_values(|s: String| s@);
        assert(views.subrange(0, views.len() as int) =~= views);
    }
    r
}

} // verus!
