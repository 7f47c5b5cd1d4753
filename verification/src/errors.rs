//! Error taxonomy of the library.
use vstd::prelude::*;

verus! {

/// Errors surfaced by the session, synthesis and persistence pipelines.
#[derive(Debug, Clone, PartialEq, Eq)]
pub enum NCBError {
    /// Configuration is missing or malformed.
    Config(String),
    /// A persistence operation failed.
    Database(String),
    /// The community text-to-speech backend reported a failure.
    VOICEVOX(String),
    /// A synthesis request failed after retries were exhausted.
    TTSSynthesis(String),
    /// The key-value store connection failed.
    Redis(String),
    /// A voice connection could not be established.
    VoiceConnection(String),
    /// An input value was rejected by validation.
    InvalidInput(String),
    /// A dictionary rule's pattern is not a valid regular expression.
    InvalidRegex(String),
    /// The voice transport reported a failure.
    Songbird(String),
    /// The user who issued a command is not in a voice channel.
    UserNotInVoiceChannel,
    /// The guild could not be resolved.
    GuildNotFound,
    /// The channel could not be resolved.
    ChannelNotFound,
    /// No live session exists for the guild.
    TTSInstanceNotFound { guild_id: u64 },
    /// The text exceeds the synthesis length ceiling.
    TextTooLong { max_length: usize },
    /// The text contains a prohibited construct.
    ProhibitedContent,
    /// Too many requests in the current window.
    RateLimitExceeded,
}

impl NCBError {
    pub fn config(message: &str) -> (r: Self)
        ensures
            r matches NCBError::Config(m) && m@ == message@,
    {
        NCBError::Config(message.to_owned())
    }

    pub fn database(message: &str) -> (r: Self)
        ensures
            r matches NCBError::Database(m) && m@ == message@,
    {
        NCBError::Database(message.to_owned())
    }

    pub fn voicevox(message: &str) -> (r: Self)
        ensures
            r matches NCBError::VOICEVOX(m) && m@ == message@,
    {
        NCBError::VOICEVOX(message.to_owned())
    }

    pub fn voice_connection(message: &str) -> (r: Self)
        ensures
            r matches NCBError::VoiceConnection(m) && m@ == message@,
    {
        NCBError::VoiceConnection(message.to_owned())
    }

    pub fn tts_synthesis(message: &str) -> (r: Self)
        ensures
            r matches NCBError::TTSSynthesis(m) && m@ == message@,
    {
        NCBError::TTSSynthesis(message.to_owned())
    }

    pub fn invalid_input(message: &str) -> (r: Self)
        ensures
            r matches NCBError::InvalidInput(m) && m@ == message@,
    {
        NCBError::InvalidInput(message.to_owned())
    }

    pub fn invalid_regex(message: &str) -> (r: Self)
        ensures
            r matches NCBError::InvalidRegex(m) && m@ == message@,
    {
        NCBError::InvalidRegex(message.to_owned())
    }

    pub fn songbird(message: &str) -> (r: Self)
        ensures
            r matches NCBError::Songbird(m) && m@ == message@,
    {
        NCBError::Songbird(message.to_owned())
    }

    pub fn tts_instance_not_found(guild_id: u64) -> (r: Self)
        ensures
            r == (NCBError::TTSInstanceNotFound { guild_id }),
    {
        NCBError::TTSInstanceNotFound { guild_id }
    }

    pub fn text_too_long(max_length: usize) -> (r: Self)
        ensures
            r == (NCBError::TextTooLong { max_length }),
    {
        NCBError::TextTooLong { max_length }
    }

    pub fn redis(message: &str) -> (r: Self)
        ensures
            r matches NCBError::Redis(m) && m@ == message@,
    {
        NCBError::Redis(message.to_owned())
    }

    /// The human-readable rendering of the error.
    pub fn message(&self) -> (r: String)
        ensures
            r@ == self.spec_message(),
    {
        match self {
            NCBError::Config(m) => prefixed("Configuration error: ", m),
            NCBError::Database(m) => prefixed("Database error: ", m),
            NCBError::VOICEVOX(m) => prefixed("VOICEVOX API error: ", m),
            NCBError::TTSSynthesis(m) => prefixed("TTS synthesis error: ", m),
            NCBError::Redis(m) => prefixed("Redis connection error: ", m),
            NCBError::VoiceConnection(m) => prefixed("Voice connection error: ", m),
            NCBError::InvalidInput(m) => prefixed("Invalid input: ", m),
            NCBError::InvalidRegex(m) => prefixed("Invalid regex pattern: ", m),
            NCBError::Songbird(m) => prefixed("Songbird error: ", m),
            NCBError::UserNotInVoiceChannel => "User not in voice channel".to_owned(),
            NCBError::GuildNotFound => "Guild not found".to_owned(),
            NCBError::ChannelNotFound => "Channel not found".to_owned(),
            NCBError::TTSInstanceNotFound { guild_id } => {
                let mut s = "TTS instance not found for guild ".to_owned();
                let n = crate::text::u64_to_string(*guild_id);
                s.append(n.as_str());
                s
            },
            NCBError::TextTooLong { max_length } => {
                let mut s = "Text too long (max ".to_owned();
                let n = crate::text::u64_to_string(*max_length as u64);
                s.append(n.as_str());
                s.append(" characters)");
                s
            },
            NCBError::ProhibitedContent => "Text contains prohibited content".to_owned(),
            NCBError::RateLimitExceeded => "Rate limit exceeded".to_owned(),
        }
    }

    /// What `message` renders for each variant.
    pub open spec fn spec_message(self) -> Seq<char> {
        match self {
            NCBError::Config(m) => "Configuration error: "@ + m@,
            NCBError::Database(m) => "Database error: "@ + m@,
            NCBError::VOICEVOX(m) => "VOICEVOX API error: "@ + m@,
            NCBError::TTSSynthesis(m) => "TTS synthesis error: "@ + m@,
            NCBError::Redis(m) => "Redis connection error: "@ + m@,
            NCBError::VoiceConnection(m) => "Voice connection error: "@ + m@,
            NCBError::InvalidInput(m) => "Invalid input: "@ + m@,
            NCBError::InvalidRegex(m) => "Invalid regex pattern: "@ + m@,
            NCBError::Songbird(m) => "Songbird error: "@ + m@,
            NCBError::UserNotInVoiceChannel => "User not in voice channel"@,
            NCBError::GuildNotFound => "Guild not found"@,
            NCBError::ChannelNotFound => "Channel not found"@,
            NCBError::TTSInstanceNotFound { guild_id } => "TTS instance not found for guild "@
                + crate::text::spec_u64_dec(guild_id as int),
            NCBError::TextTooLong { max_length } => "Text too long (max "@
                + crate::text::spec_u64_dec(max_length as int) + " characters)"@,
            NCBError::ProhibitedContent => "Text contains prohibited content"@,
            NCBError::RateLimitExceeded => "Rate limit exceeded"@,
        }
    }
}

/// The prefix followed by the payload.
fn prefixed(prefix: &str, m: &String) -> (r: String)
    ensures
        r@ == prefix@ + m@,
{
    let mut s = prefix.to_owned();
    s.append(m.as_str());
    s
}

} // verus!
