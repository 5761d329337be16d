//! The request sent to the provider to synthesize speech, and what comes
//! back from it.

use crate::error::VoiceError;
use crate::gender::Gender;
use vstd::prelude::*;

verus! {

/// The audio formats that synthesis can ask for.
#[derive(Clone, Copy, Debug, PartialEq, Eq, Structural)]
pub enum AudioFormat {
    /// MP3, lossy-compressed.
    Mp3,
}

/// Speaking rate, in hundredths of the normal rate.
pub const NORMAL_SPEAKING_RATE_PERCENT: u32 = 100;

/// A synthesis request: the text, the voice, and the fixed audio policy.
pub struct SynthesisRequest {
    pub voice_name: String,
    pub language_code: String,
    pub text: String,
    /// Left to the provider, which chooses by `voice_name`.
    pub gender: Gender,
    pub audio_format: AudioFormat,
    /// Speaking rate in hundredths of the normal rate.
    pub speaking_rate_percent: u32,
    /// Pitch shift in semitones.
    pub pitch_semitones: i32,
    /// Volume gain in decibels.
    pub volume_gain_db: i32,
    /// Sample rate in hertz; 0 leaves it to the provider.
    pub sample_rate_hertz: i32,
}

/// Builds the request for `text` spoken by `voice_name` in `language_code`.
/// Nothing is checked here: the provider decides what it accepts. The text
/// and the voice go out as given; the audio is MP3 at the normal rate, with
/// no pitch shift or gain and the provider's default sample rate.
pub fn build_synthesis_request(voice_name: String, language_code: String, text: String) -> (r:
    SynthesisRequest)
    ensures
        r.voice_name@ == voice_name@,
        r.language_code@ == language_code@,
        r.text@ == text@,
        r.gender == Gender::Unspecified,
        r.audio_format == AudioFormat::Mp3,
        r.speaking_rate_percent == 100,
        r.pitch_semitones == 0,
        r.volume_gain_db == 0,
        r.sample_rate_hertz == 0,
{
    SynthesisRequest {
        voice_name,
        language_code,
        text,
        gender: Gender::Unspecified,
        audio_format: AudioFormat::Mp3,
        speaking_rate_percent: NORMAL_SPEAKING_RATE_PERCENT,
        pitch_semitones: 0,
        volume_gain_db: 0,
        sample_rate_hertz: 0,
    }
}

/// What synthesis returns, given the provider's reply: its audio bytes
/// exactly as they came, or its error as a failed call.
pub fn synthesis_result(reply: Result<Vec<u8>, String>) -> (r: Result<Vec<u8>, VoiceError>)
    ensures
        reply matches Ok(audio) ==> (r matches Ok(out) && out@ == audio@),
        reply matches Err(m) ==> (r matches Err(VoiceError::RemoteCallFailed(out)) && out@ == m@),
{
    match reply {
        Ok(audio) => Ok(audio),
        Err(m) => Err(VoiceError::RemoteCallFailed(m)),
    }
}

} // verus!
