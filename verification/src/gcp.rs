//! Request and response shapes of the cloud text-to-speech vendor.
//! Field names follow the vendor's JSON wire format.
use vstd::prelude::*;

verus! {

/// The text to synthesize: plain text or SSML, exactly one of the two.
#[derive(Debug, Clone, PartialEq, Eq, Hash)]
pub struct SynthesisInput {
    pub text: Option<String>,
    pub ssml: Option<String>,
}

/// Voice selection: language, voice name and gender.
#[allow(non_snake_case)]
#[derive(Debug, Clone, PartialEq, Eq, Hash)]
pub struct VoiceSelectionParams {
    pub languageCode: String,
    pub name: String,
    pub ssmlGender: String,
}

/// The vendor's response: base64-encoded audio bytes.
#[allow(non_snake_case)]
#[derive(Debug, Clone)]
pub struct SynthesizeResponse {
    pub audioContent: String,
}

/// The default Japanese voice used when a user has not chosen one.
pub fn default_voice() -> (r: VoiceSelectionParams)
    ensures
        r.languageCode@ == "ja-JP"@,
        r.name@ == "ja-JP-Wavenet-B"@,
        r.ssmlGender@ == "neutral"@,
{
    VoiceSelectionParams {
        languageCode: "ja-JP".to_owned(),
        name: "ja-JP-Wavenet-B".to_owned(),
        ssmlGender: "neutral".to_owned(),
    }
}

} // verus!
