//! One guild's live session: the bound voice channel, the text channels
//! being read, the last-speaker memory, and the read pipeline that turns
//! an utterance into queued audio.
use vstd::prelude::*;

verus! {

use crate::constants::DEFAULT_VOICEVOX_SPEAKER;
use crate::constants::MAX_TTS_TEXT_LENGTH;
use crate::dictionary::spec_apply_rules;
use crate::gcp::SynthesisInput;
use crate::gcp::VoiceSelectionParams;
use crate::gcp::default_voice;
use crate::regex_cache::RegexCache;
use crate::server_config::ServerConfig;
use crate::text::spec_replace_all;
use crate::text::spec_truncate;
use crate::text::spec_u64_dec;
use crate::text::u64_to_string;
use crate::tts::CacheKey;
use crate::tts::SynthesisBackend;
use crate::tts::TTS;
use crate::tts::spec_gcp_key_v;
use crate::tts::spec_synth_contract;
use crate::tts::spec_vv_key;
use crate::tts_type::TTSType;
use crate::user_config::UserConfig;
use crate::validation::sanitize_ssml;
use crate::validation::spec_sanitize_ssml;
use crate::validation::spec_tts_text_ok;
use crate::validation::validate_tts_text;

/// A unit of text destined for synthesis: a chat message with its
/// author, or a system announcement.
#[derive(Debug, Clone)]
pub enum Utterance {
    UserMessage { author_id: u64, author_name: String, content: String, attachments: u64 },
    Announcement { text: String },
}

/// A system announcement to be read in the bound voice channel.
#[derive(Debug, Clone)]
pub struct AnnounceMessage {
    pub message: String,
}

/// One guild's session. `before_message` remembers the author of the
/// most recently read chat message; it is cleared by announcements so
/// the next chat message re-announces its speaker.
#[derive(Debug, Clone)]
pub struct TTSInstance {
    pub before_message: Option<u64>,
    pub text_channels: Vec<u64>,
    pub voice_channel: u64,
    pub guild: u64,
}

impl TTSInstance {
    /// A fresh session bound to these channels, with no speaker memory.
    pub fn new(text_channels: Vec<u64>, voice_channel: u64, guild: u64) -> (r: Self)
        ensures
            r.before_message is None,
            r.text_channels == text_channels,
            r.voice_channel == voice_channel,
            r.guild == guild,
    {
        TTSInstance { before_message: Option::None, text_channels, voice_channel, guild }
    }

    /// A fresh session reading a single text channel.
    pub fn new_single(text_channel: u64, voice_channel: u64, guild: u64) -> (r: Self)
        ensures
            r.before_message is None,
            r.text_channels@ == seq![text_channel],
            r.voice_channel == voice_channel,
            r.guild == guild,
    {
        let mut text_channels: Vec<u64> = Vec::new();
        text_channels.push(text_channel);
        proof {
            assert(text_channels@ =~= seq![text_channel]);
        }
        TTSInstance::new(text_channels, voice_channel, guild)
    }

    /// Adds a text channel unless it is already read.
    pub fn add_text_channel(&mut self, channel_id: u64)
        ensures
            old(self).text_channels@.contains(channel_id) ==> final(self).text_channels == old(
                self,
            ).text_channels,
            !old(self).text_channels@.contains(channel_id) ==> final(self).text_channels@ == old(
                self,
            ).text_channels@.push(channel_id),
            final(self).before_message == old(self).before_message,
            final(self).voice_channel == old(self).voice_channel,
            final(self).guild == old(self).guild,
    {
        if !self.contains_text_channel(channel_id) {
            self.text_channels.push(channel_id);
        }
    }

    /// Removes the first occurrence of a text channel; reports whether
    /// anything was removed.
    pub fn remove_text_channel(&mut self, channel_id: u64) -> (r: bool)
        ensures
            r == old(self).text_channels@.contains(channel_id),
            !r ==> final(self).text_channels == old(self).text_channels,
            r ==> exists|i: int|
                {
                    &&& 0 <= i < old(self).text_channels@.len()
                    &&& old(self).text_channels@[i] == channel_id
                    &&& (forall|j: int|
                        0 <= j < i ==> (#[trigger] old(self).text_channels@[j]) != channel_id)
                    &&& final(self).text_channels@ == old(self).text_channels@.remove(i)
                },
            final(self).before_message == old(self).before_message,
            final(self).voice_channel == old(self).voice_channel,
            final(self).guild == old(self).guild,
    {
        let mut i: usize = 0;
        while i < self.text_channels.len()
            invariant
                i <= self.text_channels@.len(),
                forall|j: int| 0 <= j < i ==> (#[trigger] self.text_channels@[j]) != channel_id,
                *self == *old(self),
            decreases self.text_channels@.len() - i,
        {
            if self.text_channels[i] == channel_id {
                self.text_channels.remove(i);
                return true;
            }
            i = i + 1;
        }
        proof {
            assert(forall|j: int|
                0 <= j < old(self).text_channels@.len() ==> (#[trigger] old(
                    self,
                ).text_channels@[j]) != channel_id);
        }
        false
    }

    /// Whether a channel is among those being read.
    pub fn contains_text_channel(&self, channel_id: u64) -> (r: bool)
        ensures
            r == self.text_channels@.contains(channel_id),
    {
        let mut i: usize = 0;
        while i < self.text_channels.len()
            invariant
                i <= self.text_channels@.len(),
                forall|j: int| 0 <= j < i ==> (#[trigger] self.text_channels@[j]) != channel_id,
            decreases self.text_channels@.len() - i,
        {
            if self.text_channels[i] == channel_id {
                return true;
            }
            i = i + 1;
        }
        false
    }

    /// The channels being read, in order; the first is the primary one.
    pub fn get_text_channels(&self) -> (r: &Vec<u64>)
        ensures
            r@ == self.text_channels@,
    {
        &self.text_channels
    }
}

/// Whether the guild announces speaker names (on unless switched off).
pub open spec fn spec_read_username(config: ServerConfig) -> bool {
    config.read_username != Option::Some(false)
}

/// The message text that enters normalization: over-long or otherwise
/// invalid text is cut to the synthesis ceiling first.
pub open spec fn spec_base_text(content: Seq<char>) -> Seq<char> {
    if spec_tts_text_ok(content) {
        content
    } else {
        spec_truncate(content, MAX_TTS_TEXT_LENGTH as int)
    }
}

/// The speaker-announcement prefix applied to a message body: elided for
/// the speaker of the previous message and when the guild reads no
/// names.
pub open spec fn spec_prefixed(
    before: Option<u64>,
    author_id: u64,
    author_name: Seq<char>,
    read_username: bool,
    body: Seq<char>,
) -> Seq<char> {
    if before == Option::Some(author_id) {
        body
    } else if read_username {
        author_name + "さんの発言<break time=\"200ms\"/>"@ + body
    } else {
        body
    }
}

/// The attachment notice appended to a message with attachments.
pub open spec fn spec_with_attachments(s: Seq<char>, attachments: u64) -> Seq<char> {
    if attachments > 0 {
        s + "<break time=\"200ms\"/>"@ + spec_u64_dec(attachments as int) + "個の添付ファイル"@
    } else {
        s
    }
}

/// What a chat message is read as: the validated text, normalized by the
/// guild dictionary, with the speaker prefix and the attachment notice.
pub open spec fn spec_parse_message(
    before: Option<u64>,
    config: ServerConfig,
    author_id: u64,
    author_name: Seq<char>,
    content: Seq<char>,
    attachments: u64,
) -> Seq<char> {
    spec_with_attachments(
        spec_prefixed(
            before,
            author_id,
            author_name,
            spec_read_username(config),
            spec_apply_rules(config.dictionary.rules@, spec_base_text(content)),
        ),
        attachments,
    )
}

/// What an announcement is read as.
pub open spec fn spec_announce_text(message: Seq<char>) -> Seq<char> {
    "<speak>アナウンス<break time=\"200ms\"/>"@ + message + "</speak>"@
}

/// Law (speaker elision): with name reading on, a chat message by the
/// same author as the previous one is read without any speaker prefix,
/// while a first message, a message by another author, or a message
/// following an announcement (which clears the memory) carries exactly
/// the speaker prefix; in either case the attachment notice, if any,
/// follows the body.
pub proof fn lemma_speaker_prefix(
    before: Option<u64>,
    config: ServerConfig,
    author_id: u64,
    author_name: Seq<char>,
    content: Seq<char>,
    attachments: u64,
)
    requires
        spec_read_username(config),
    ensures
        before == Option::Some(author_id) ==> spec_parse_message(
            before,
            config,
            author_id,
            author_name,
            content,
            attachments,
        ) == spec_with_attachments(
            spec_apply_rules(config.dictionary.rules@, spec_base_text(content)),
            attachments,
        ),
        before != Option::Some(author_id) ==> spec_parse_message(
            before,
            config,
            author_id,
            author_name,
            content,
            attachments,
        ) == spec_with_attachments(
            author_name + "さんの発言<break time=\"200ms\"/>"@ + spec_apply_rules(
                config.dictionary.rules@,
                spec_base_text(content),
            ),
            attachments,
        ),
{
}

impl TTSInstance {
    /// Parses an utterance into the text to synthesize: chat messages
    /// are validated, normalized, prefixed and remembered; announcements
    /// are wrapped in the announcement frame and clear the speaker
    /// memory, so the next chat message re-announces its speaker.
    pub fn parse(&mut self, message: &Utterance, config: &ServerConfig, regexes: &mut RegexCache)
        -> (r: String)
        requires
            old(regexes).wf(),
        ensures
            final(regexes).wf(),
            match *message {
                Utterance::UserMessage { author_id, author_name, content, attachments } => {
                    &&& r@ == spec_parse_message(
                        old(self).before_message,
                        *config,
                        author_id,
                        author_name@,
                        content@,
                        attachments,
                    )
                    &&& final(self).before_message == Option::Some(author_id)
                },
                Utterance::Announcement { text } => {
                    &&& r@ == spec_announce_text(text@)
                    &&& final(self).before_message is None
                },
            },
            final(self).text_channels == old(self).text_channels,
            final(self).voice_channel == old(self).voice_channel,
            final(self).guild == old(self).guild,
    {
        match message {
            Utterance::UserMessage { author_id, author_name, content, attachments } => {
                let base = match validate_tts_text(content.as_str()) {
                    Result::Ok(_) => content.clone(),
                    Result::Err(_) => crate::text::truncate_chars(
                        content.as_str(),
                        MAX_TTS_TEXT_LENGTH,
                    ),
                };
                let normalized = crate::dictionary::apply_rules(
                    regexes,
                    &config.dictionary.rules,
                    base,
                );
                let read_username = match config.read_username {
                    Option::Some(b) => b,
                    Option::None => true,
                };
                let same_speaker = match self.before_message {
                    Option::Some(prev) => prev == *author_id,
                    Option::None => false,
                };
                let mut text = if same_speaker {
                    normalized
                } else if read_username {
                    let mut s = author_name.clone();
                    s.append("さんの発言<break time=\"200ms\"/>");
                    s.append(normalized.as_str());
                    s
                } else {
                    normalized
                };
                if *attachments > 0 {
                    text.append("<break time=\"200ms\"/>");
                    let n = u64_to_string(*attachments);
                    text.append(n.as_str());
                    text.append("個の添付ファイル");
                }
                self.before_message = Option::Some(*author_id);
                text
            },
            Utterance::Announcement { text } => {
                self.before_message = Option::None;
                let mut s = "<speak>アナウンス<break time=\"200ms\"/>".to_owned();
                s.append(text.as_str());
                s.append("</speak>");
                s
            },
        }
    }
}

/// The user's chosen backend is the community one.
pub open spec fn spec_uses_voicevox(config: UserConfig) -> bool {
    config.tts_type == Option::Some(TTSType::VOICEVOX)
}

/// Chat text as the community backend reads it: pause tags become a
/// Japanese comma.
pub open spec fn spec_vv_text(text: Seq<char>) -> Seq<char> {
    spec_replace_all(text, "<break time=\"200ms\"/>"@, "、"@)
}

/// The user's voice, or the default voice.
pub open spec fn spec_user_voice(config: UserConfig) -> (Seq<char>, Seq<char>, Seq<char>) {
    match config.gcp_tts_voice {
        Option::Some(v) => (v.languageCode@, v.name@, v.ssmlGender@),
        Option::None => ("ja-JP"@, "ja-JP-Wavenet-B"@, "neutral"@),
    }
}

/// The user's community speaker, or the default speaker.
pub open spec fn spec_user_speaker(config: UserConfig) -> i64 {
    match config.voicevox_speaker {
        Option::Some(s) => s,
        Option::None => DEFAULT_VOICEVOX_SPEAKER,
    }
}

/// The canonical cache key a chat message is synthesized under, given
/// the user's backend choice and voice parameters.
pub open spec fn spec_message_key(config: UserConfig, parsed: Seq<char>) -> Seq<char> {
    if spec_uses_voicevox(config) {
        spec_vv_key(spec_vv_text(parsed), spec_user_speaker(config))
    } else {
        let v = spec_user_voice(config);
        spec_gcp_key_v(
            Option::None,
            Option::Some("<speak>"@ + spec_sanitize_ssml(parsed) + "</speak>"@),
            v.0,
            v.1,
            v.2,
        )
    }
}

/// The canonical cache key an announcement is synthesized under: its
/// frame as SSML with the default voice, always on the cloud backend.
pub open spec fn spec_announce_key(parsed: Seq<char>) -> Seq<char> {
    spec_gcp_key_v(
        Option::None,
        Option::Some(parsed),
        "ja-JP"@,
        "ja-JP-Wavenet-B"@,
        "neutral"@,
    )
}

/// Builds the synthesis request of a parsed chat message: the community
/// backend reads the plain text under the user's speaker, the cloud
/// backend reads sanitized SSML under the user's (or default) voice.
pub fn build_request(parsed: &str, config: &UserConfig) -> (r: CacheKey)
    ensures
        spec_uses_voicevox(*config) ==> (r matches CacheKey::Voicevox(t, s) && t@ == spec_vv_text(
            parsed@,
        ) && s == spec_user_speaker(*config)),
        !spec_uses_voicevox(*config) ==> (r matches CacheKey::GCP(input, voice) && {
            &&& input.text is None
            &&& input.ssml matches Some(ss) && ss@ == "<speak>"@ + spec_sanitize_ssml(parsed@)
                + "</speak>"@
            &&& (voice.languageCode@, voice.name@, voice.ssmlGender@) == spec_user_voice(*config)
        }),
        crate::tts::spec_canonical(r) == spec_message_key(*config, parsed@),
{
    let uses_vv = match config.tts_type {
        Option::Some(TTSType::VOICEVOX) => true,
        _ => false,
    };
    if uses_vv {
        let text = crate::text::replace_all(parsed, "<break time=\"200ms\"/>", "、");
        let speaker = match config.voicevox_speaker {
            Option::Some(s) => s,
            Option::None => DEFAULT_VOICEVOX_SPEAKER,
        };
        CacheKey::Voicevox(text, speaker)
    } else {
        let sanitized = sanitize_ssml(parsed);
        let mut ssml = "<speak>".to_owned();
        ssml.append(sanitized.as_str());
        ssml.append("</speak>");
        let voice = match &config.gcp_tts_voice {
            Option::Some(v) => VoiceSelectionParams {
                languageCode: v.languageCode.clone(),
                name: v.name.clone(),
                ssmlGender: v.ssmlGender.clone(),
            },
            Option::None => default_voice(),
        };
        let input = SynthesisInput { text: Option::None, ssml: Option::Some(ssml) };
        proof {
            assert((voice.languageCode@, voice.name@, voice.ssmlGender@) == spec_user_voice(
                *config,
            ));
        }
        CacheKey::GCP(input, voice)
    }
}

/// What a read produced: the audio tracks to enqueue (at most one), and
/// the ghost record of the backend attempts.
pub struct ReadOutcome {
    pub tracks: Vec<Vec<u8>>,
    pub attempts: Ghost<Seq<bool>>,
}

impl TTSInstance {
    /// Reads an utterance aloud: parses it, synthesizes it through the
    /// router with the speaking user's configuration, and hands back the
    /// audio to enqueue. A failed synthesis degrades to no audio rather
    /// than failing the session.
    pub fn read<B: SynthesisBackend>(
        &mut self,
        message: &Utterance,
        server_config: &ServerConfig,
        user_config: &UserConfig,
        regexes: &mut RegexCache,
        tts: &mut TTS,
        backend: &mut B,
        now_ms: u64,
    ) -> (r: ReadOutcome)
        requires
            old(regexes).wf(),
        ensures
            final(regexes).wf(),
            match *message {
                Utterance::UserMessage { author_id, .. } => final(self).before_message
                    == Option::Some(author_id),
                Utterance::Announcement { .. } => final(self).before_message is None,
            },
            final(self).text_channels == old(self).text_channels,
            final(self).voice_channel == old(self).voice_channel,
            final(self).guild == old(self).guild,
            r.tracks@.len() <= 1,
            ({
                let parsed = match *message {
                    Utterance::UserMessage { author_id, author_name, content, attachments } => {
                        spec_parse_message(
                            old(self).before_message,
                            *server_config,
                            author_id,
                            author_name@,
                            content@,
                            attachments,
                        )
                    },
                    Utterance::Announcement { text } => spec_announce_text(text@),
                };
                let vv = (message matches Utterance::UserMessage { .. }) && spec_uses_voicevox(
                    *user_config,
                );
                let key = match *message {
                    Utterance::UserMessage { .. } => spec_message_key(*user_config, parsed),
                    Utterance::Announcement { .. } => spec_announce_key(parsed),
                };
                spec_synth_contract(
                    *old(tts),
                    *final(tts),
                    key,
                    if r.tracks@.len() == 1 {
                        Option::Some(r.tracks@[0]@)
                    } else {
                        Option::None
                    },
                    r.attempts@,
                    now_ms,
                    vv,
                )
            }),
    {
        let parsed = self.parse(message, server_config, regexes);
        let outcome = match message {
            Utterance::UserMessage { .. } => {
                let request = build_request(parsed.as_str(), user_config);
                match request {
                    CacheKey::Voicevox(text, speaker) => {
                        tts.synthesize_voicevox(backend, text.as_str(), speaker, now_ms)
                    },
                    CacheKey::GCP(input, voice) => {
                        tts.synthesize_gcp(backend, input, voice, now_ms)
                    },
                }
            },
            Utterance::Announcement { .. } => {
                let input = SynthesisInput { text: Option::None, ssml: Option::Some(parsed) };
                tts.synthesize_gcp(backend, input, default_voice(), now_ms)
            },
        };
        let mut tracks: Vec<Vec<u8>> = Vec::new();
        let ghost attempts = outcome.attempts@;
        match outcome.result {
            Result::Ok(audio) => {
                tracks.push(audio);
            },
            Result::Err(_) => {
                // A failed synthesis is contained to this utterance.
            },
        }
        ReadOutcome { tracks, attempts: Ghost(attempts) }
    }
}

impl AnnounceMessage {
    /// The announcement as an utterance.
    pub fn to_utterance(&self) -> (r: Utterance)
        ensures
            r matches Utterance::Announcement { text } && text@ == self.message@,
    {
        Utterance::Announcement { text: self.message.clone() }
    }
}

} // verus!
