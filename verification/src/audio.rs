//! Validation of normalized audio against the engine's required format.
//!
//! The engine's numeric contract assumes mono 16 kHz input; feeding it
//! anything else produces undefined output rather than a graceful error, so a
//! job's normalized artifact is checked before the engine is ever invoked.
//! Stereo input is downmixed to mono; any other channel count and any other
//! sample rate are hard failures.

use vstd::arithmetic::div_mod::{
    lemma_fundamental_div_mod, lemma_hoist_over_denominator, lemma_mod_bound,
};
use vstd::prelude::*;

verus! {

/// The sample rate the engine requires, in Hz.
pub const REQUIRED_SAMPLE_RATE: u32 = 16000;

/// Why a normalized artifact was rejected before the engine was invoked.
#[derive(PartialEq, Eq, Structural, Clone, Copy, Debug)]
pub enum FormatError {
    /// The bytes are not a decodable stream of 16-bit integer samples.
    NotDecodable,
    /// The stream has a channel count other than one or two.
    UnsupportedChannels,
    /// The stream's sample rate differs from the rate the engine requires.
    UnsupportedSampleRate,
}

impl FormatError {
    /// The human-readable cause reported for this rejection.
    pub open spec fn message_view(&self) -> Seq<char> {
        match self {
            FormatError::NotDecodable => "could not decode normalized audio"@,
            FormatError::UnsupportedChannels => "only mono or stereo audio is supported"@,
            FormatError::UnsupportedSampleRate => "Sample rate should be 16000"@,
        }
    }

    /// Renders the human-readable cause.
    pub fn message(&self) -> (r: String)
        ensures
            r@ == self.message_view(),
    {
        match self {
            FormatError::NotDecodable => "could not decode normalized audio".to_owned(),
            FormatError::UnsupportedChannels => "only mono or stereo audio is supported".to_owned(),
            FormatError::UnsupportedSampleRate => "Sample rate should be 16000".to_owned(),
        }
    }
}

/// Normalized audio as the engine's gatekeeper sees it: the declared channel
/// count and sample rate, and the interleaved 16-bit integer samples.
pub struct WavAudio {
    pub channels: u16,
    pub sample_rate: u32,
    pub samples: Vec<i16>,
}

/// The arithmetic mean of two samples, rounded toward negative infinity.
pub open spec fn avg_sample(a: i16, b: i16) -> int {
    (a + b) / 2
}

/// An interleaved stereo sequence downmixed to mono: each output sample is
/// the mean of one left/right pair.
pub open spec fn downmixed(s: Seq<i16>) -> Seq<i16> {
    Seq::new((s.len() / 2) as nat, |i: int| avg_sample(s[2 * i], s[2 * i + 1]) as i16)
}

/// What validation yields for a given declared format and sample sequence:
/// the engine-ready mono samples, or the rejection. Channel count is checked
/// before sample rate; stereo is downmixed, mono passes unchanged.
pub open spec fn validated(channels: u16, sample_rate: u32, samples: Seq<i16>) -> Result<
    Seq<i16>,
    FormatError,
> {
    if channels != 1 && channels != 2 {
        Err(FormatError::UnsupportedChannels)
    } else if sample_rate != REQUIRED_SAMPLE_RATE {
        Err(FormatError::UnsupportedSampleRate)
    } else if channels == 2 {
        Ok(downmixed(samples))
    } else {
        Ok(samples)
    }
}

/// Downmixes interleaved stereo samples to mono by averaging each pair.
fn downmix_stereo(samples: &Vec<i16>) -> (r: Vec<i16>)
    ensures
        r@ == downmixed(samples@),
{
    let n: usize = samples.len() / 2;
    let mut out: Vec<i16> = Vec::new();
    let mut i: usize = 0;
    let mut k: usize = 0;
    while i < n
        invariant
            samples@.len() <= usize::MAX,
            n == samples@.len() as int / 2,
            i <= n,
            k == 2 * i,
            out@.len() == i,
            forall|j: int| 0 <= j < i ==> out@[j] == downmixed(samples@)[j],
        decreases n - i,
    {
        proof {
            lemma_fundamental_div_mod(samples@.len() as int, 2);
            lemma_mod_bound(samples@.len() as int, 2);
            assert(2 * (n as int) <= samples@.len());
            assert(k + 1 < samples@.len());
        }
        let a: i16 = samples[k];
        let b: i16 = samples[k + 1];
        let t: u32 = ((a as i32) + (b as i32) + 65536) as u32;
        let q: u32 = t / 2;
        let m: i16 = ((q as i32) - 32768) as i16;
        proof {
            lemma_hoist_over_denominator(a + b, 32768, 2nat);
            assert(m == avg_sample(a, b) as i16);
        }
        out.push(m);
        i = i + 1;
        k = k + 2;
    }
    proof {
        assert(out@ =~= downmixed(samples@));
    }
    out
}

/// Validates normalized audio against the engine's required format: exactly
/// two channels are downmixed to mono, exactly one passes unchanged, every
/// other channel count is rejected, and any sample rate other than the
/// required one is rejected. The result is `validated` of the input.
pub fn validate_audio(audio: WavAudio) -> (r: Result<Vec<i16>, FormatError>)
    ensures
        r is Ok <==> validated(audio.channels, audio.sample_rate, audio.samples@) is Ok,
        r is Ok ==> r->Ok_0@ == validated(audio.channels, audio.sample_rate, audio.samples@)->Ok_0,
        r is Err ==> r->Err_0 == validated(audio.channels, audio.sample_rate, audio.samples@)->Err_0,
{
    if audio.channels != 1 && audio.channels != 2 {
        Err(FormatError::UnsupportedChannels)
    } else if audio.sample_rate != REQUIRED_SAMPLE_RATE {
        Err(FormatError::UnsupportedSampleRate)
    } else if audio.channels == 2 {
        Ok(downmix_stereo(&audio.samples))
    } else {
        Ok(audio.samples)
    }
}

/// What hound's WAV decoder yields on a byte stream read as 16-bit integer
/// samples: the header's channel count and sample rate and the data chunk's
/// interleaved samples, or nothing where the stream is not decodable as such.
pub uninterp spec fn wav_decoding(bytes: Seq<u8>) -> Option<(u16, u32, Seq<i16>)>;

/// Relies on hound::WavReader::new, WavReader::spec and
/// WavReader::into_samples::<i16>: decoding a WAV byte stream is a function
/// of the bytes alone; `spec()` reports the header's channel count and sample
/// rate, and the samples iterator yields the data chunk's interleaved
/// samples, an error among them making the stream undecodable here.
#[verifier::external_body]
fn decode_wav_bytes(bytes: &Vec<u8>) -> (r: Option<WavAudio>)
    ensures
        r is Some <==> wav_decoding(bytes@) is Some,
        r is Some ==> ({
            let (channels, sample_rate, samples) = wav_decoding(bytes@)->0;
            r->0.channels == channels && r->0.sample_rate == sample_rate && r->0.samples@
                == samples
        }),
{
    let reader = match hound::WavReader::new(std::io::Cursor::new(bytes)) {
        Ok(reader) => reader,
        Err(_) => return None,
    };
    let spec = reader.spec();
    match reader.into_samples::<i16>().collect::<Result<Vec<i16>, _>>() {
        Ok(samples) => Some(
            WavAudio { channels: spec.channels, sample_rate: spec.sample_rate, samples },
        ),
        Err(_) => None,
    }
}

/// Decodes a normalized artifact's bytes and validates them for the engine:
/// undecodable bytes are rejected, and a decoded stream is accepted or
/// rejected exactly as `validated` says, with stereo downmixed to mono.
pub fn prepare_engine_input(bytes: &Vec<u8>) -> (r: Result<Vec<i16>, FormatError>)
    ensures
        wav_decoding(bytes@) is None ==> r == Result::<Vec<i16>, FormatError>::Err(
            FormatError::NotDecodable,
        ),
        wav_decoding(bytes@) is Some ==> {
            let (channels, sample_rate, samples) = wav_decoding(bytes@)->0;
            &&& (r is Ok <==> validated(channels, sample_rate, samples) is Ok)
            &&& (r is Ok ==> r->Ok_0@ == validated(channels, sample_rate, samples)->Ok_0)
            &&& (r is Err ==> r->Err_0 == validated(channels, sample_rate, samples)->Err_0)
        },
{
    match decode_wav_bytes(bytes) {
        None => Err(FormatError::NotDecodable),
        Some(audio) => validate_audio(audio),
    }
}

} // verus!
