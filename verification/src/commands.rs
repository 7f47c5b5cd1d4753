//! Decisions of the command surface: which text channels a setup binds,
//! and whether an incoming chat message is read at all. The interaction
//! plumbing around them lives outside the library.
use vstd::prelude::*;

verus! {

use vstd::string::StrSliceExecFns;

/// The channel mode a user picks at setup.
#[derive(Debug, Clone, Copy, PartialEq, Eq, Structural)]
pub enum SetupMode {
    /// Read the channel the command was issued in.
    TextChannel,
    /// Read a freshly created thread.
    NewThread,
    /// Read the voice channel's own text chat.
    VoiceChannel,
    /// Read both the command channel and the voice channel.
    Default,
}

/// The text channels a new session binds, by mode. The first entry is
/// the primary channel used for bot-origin notices.
pub fn setup_text_channels(
    mode: SetupMode,
    command_channel: u64,
    voice_channel: u64,
    thread_channel: Option<u64>,
) -> (r: Vec<u64>)
    requires
        mode == SetupMode::NewThread ==> thread_channel is Some,
    ensures
        mode == SetupMode::TextChannel ==> r@ == seq![command_channel],
        mode == SetupMode::NewThread ==> r@ == seq![thread_channel.unwrap()],
        mode == SetupMode::VoiceChannel ==> r@ == seq![voice_channel],
        mode == SetupMode::Default && voice_channel != command_channel ==> r@ == seq![
            command_channel,
            voice_channel,
        ],
        mode == SetupMode::Default && voice_channel == command_channel ==> r@ == seq![
            voice_channel,
        ],
        r@.len() >= 1,
{
    let mut out: Vec<u64> = Vec::new();
    match mode {
        SetupMode::TextChannel => {
            out.push(command_channel);
            proof {
                assert(out@ =~= seq![command_channel]);
            }
        },
        SetupMode::NewThread => {
            let t = thread_channel.unwrap();
            out.push(t);
            proof {
                assert(out@ =~= seq![thread_channel.unwrap()]);
            }
        },
        SetupMode::VoiceChannel => {
            out.push(voice_channel);
            proof {
                assert(out@ =~= seq![voice_channel]);
            }
        },
        SetupMode::Default => {
            if voice_channel != command_channel {
                out.push(command_channel);
                out.push(voice_channel);
                proof {
                    assert(out@ =~= seq![command_channel, voice_channel]);
                }
            } else {
                out.push(voice_channel);
                proof {
                    assert(out@ =~= seq![voice_channel]);
                }
            }
        },
    }
    out
}

/// The message starts with the command-escape character.
pub open spec fn spec_command_prefixed(s: Seq<char>) -> bool {
    s.len() > 0 && s[0] == ';'
}

/// Whether an incoming chat message is read aloud: not from a bot, the
/// guild has a session, the message's channel is among those read, and
/// the text does not start with the command-escape character.
pub fn should_read_message(
    author_is_bot: bool,
    session_active: bool,
    channel_is_read: bool,
    content: &str,
) -> (r: bool)
    ensures
        r <==> {
            &&& !author_is_bot
            &&& session_active
            &&& channel_is_read
            &&& !spec_command_prefixed(content@)
        },
{
    if author_is_bot || !session_active || !channel_is_read {
        return false;
    }
    if content.unicode_len() == 0 {
        return true;
    }
    content.get_char(0) != ';'
}

/// Whether a persisted session is restored at startup: the voice channel
/// must still exist and hold at least one human listener (an occupancy
/// that could not be verified counts as empty).
pub fn should_restore(non_bot_occupants: Option<usize>) -> (r: bool)
    ensures
        r <==> (non_bot_occupants matches Some(n) && n > 0),
{
    match non_bot_occupants {
        Option::Some(n) => n > 0,
        Option::None => false,
    }
}

} // verus!
