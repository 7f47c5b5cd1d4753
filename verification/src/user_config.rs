//! Per-user persisted configuration.
use vstd::prelude::*;

verus! {

use crate::constants::DEFAULT_VOICEVOX_SPEAKER;
use crate::gcp::VoiceSelectionParams;
use crate::gcp::default_voice;
use crate::tts_type::TTSType;

/// A user's backend choice and voice parameters.
#[derive(Debug, Clone)]
pub struct UserConfig {
    pub tts_type: Option<TTSType>,
    pub gcp_tts_voice: Option<VoiceSelectionParams>,
    pub voicevox_speaker: Option<i64>,
}

impl UserConfig {
    /// The configuration a user gets on first read: the cloud backend
    /// with the default Japanese voice, and the default community
    /// speaker.
    pub fn default_config() -> (r: Self)
        ensures
            r.tts_type == Option::Some(TTSType::GCP),
            r.gcp_tts_voice matches Some(v) && v.languageCode@ == "ja-JP"@ && v.name@
                == "ja-JP-Wavenet-B"@ && v.ssmlGender@ == "neutral"@,
            r.voicevox_speaker == Option::Some(DEFAULT_VOICEVOX_SPEAKER),
    {
        UserConfig {
            tts_type: Option::Some(TTSType::GCP),
            gcp_tts_voice: Option::Some(default_voice()),
            voicevox_speaker: Option::Some(DEFAULT_VOICEVOX_SPEAKER),
        }
    }

    /// Read-or-create-default: a stored configuration is kept, a missing
    /// one is replaced by the default, so a caller never sees "no config".
    pub fn or_default(stored: Option<UserConfig>) -> (r: UserConfig)
        ensures
            stored matches Some(c) ==> r == c,
            stored is None ==> {
                &&& r.tts_type == Option::Some(TTSType::GCP)
                &&& (r.gcp_tts_voice matches Some(v) && v.languageCode@ == "ja-JP"@ && v.name@
                    == "ja-JP-Wavenet-B"@ && v.ssmlGender@ == "neutral"@)
                &&& r.voicevox_speaker == Option::Some(DEFAULT_VOICEVOX_SPEAKER)
            },
    {
        match stored {
            Option::Some(c) => c,
            Option::None => UserConfig::default_config(),
        }
    }
}

} // verus!
