//! Voice-state transitions: whether a state change means a user joined
//! or left the watched channel, channel occupancy, the announcement
//! texts, and the autostart decision.
use vstd::prelude::*;

verus! {

use crate::server_config::ServerConfig;

/// What a voice-state change means for the watched channel.
#[derive(Debug, Clone, Copy, PartialEq, Eq, Structural)]
pub enum VoiceMoveState {
    JOIN,
    LEAVE,
    NONE,
}

/// The meaning of a change from `old_channel` (absent when no previous
/// state exists) to `new_channel`, relative to the watched channel.
pub open spec fn spec_move_state(
    new_channel: Option<u64>,
    old_channel: Option<Option<u64>>,
    target_channel: u64,
) -> VoiceMoveState {
    match old_channel {
        Option::None => {
            if new_channel == Option::Some(target_channel) {
                VoiceMoveState::JOIN
            } else {
                VoiceMoveState::NONE
            }
        },
        Option::Some(o) => match (o, new_channel) {
            (Option::Some(oc), Option::Some(nc)) => {
                if oc == nc {
                    VoiceMoveState::NONE
                } else if nc == target_channel {
                    VoiceMoveState::JOIN
                } else {
                    VoiceMoveState::NONE
                }
            },
            (Option::Some(oc), Option::None) => {
                if oc == target_channel {
                    VoiceMoveState::LEAVE
                } else {
                    VoiceMoveState::NONE
                }
            },
            (Option::None, _) => VoiceMoveState::NONE,
        },
    }
}

/// Classifies a voice-state change: a move into the watched channel is a
/// join, leaving it for nowhere is a leave, anything else is neither.
pub fn move_state(
    new_channel: Option<u64>,
    old_channel: Option<Option<u64>>,
    target_channel: u64,
) -> (r: VoiceMoveState)
    requires
        old_channel is None ==> new_channel is Some,
    ensures
        r == spec_move_state(new_channel, old_channel, target_channel),
{
    match old_channel {
        Option::None => {
            if new_channel == Option::Some(target_channel) {
                VoiceMoveState::JOIN
            } else {
                VoiceMoveState::NONE
            }
        },
        Option::Some(o) => match (o, new_channel) {
            (Option::Some(oc), Option::Some(nc)) => {
                if oc == nc {
                    VoiceMoveState::NONE
                } else if nc == target_channel {
                    VoiceMoveState::JOIN
                } else {
                    VoiceMoveState::NONE
                }
            },
            (Option::Some(oc), Option::None) => {
                if oc == target_channel {
                    VoiceMoveState::LEAVE
                } else {
                    VoiceMoveState::NONE
                }
            },
            (Option::None, _) => VoiceMoveState::NONE,
        },
    }
}

/// What the library needs to know of one channel member.
#[derive(Debug, Clone, Copy, PartialEq, Eq, Structural)]
pub struct ChannelMember {
    pub is_bot: bool,
}

/// How many of the members are not bots.
pub open spec fn spec_non_bot_count(members: Seq<ChannelMember>) -> int
    decreases members.len(),
{
    if members.len() == 0 {
        0
    } else {
        spec_non_bot_count(members.drop_last()) + if members.last().is_bot {
            0int
        } else {
            1int
        }
    }
}

/// Counts the human occupants of a channel.
#[verifier::loop_isolation(false)]
pub fn count_non_bot_members(members: &Vec<ChannelMember>) -> (r: usize)
    ensures
        r == spec_non_bot_count(members@),
{
    let mut count: usize = 0;
    let mut i: usize = 0;
    while i < members.len()
        invariant
            i <= members@.len(),
            count == spec_non_bot_count(members@.subrange(0, i as int)),
            count <= i,
        decreases members@.len() - i,
    {
        if !members[i].is_bot {
            count = count + 1;
        }
        i = i + 1;
        proof {
            assert(members@.subrange(0, i as int).drop_last() =~= members@.subrange(
                0,
                i as int - 1,
            ));
            assert(members@.subrange(0, i as int).last() == members@[i as int - 1]);
        }
    }
    proof {
        assert(members@.subrange(0, members@.len() as int) =~= members@);
    }
    count
}

/// The join announcement for a user name.
pub fn join_announcement(name: &str) -> (r: String)
    ensures
        r@ == name@ + " さんが通話に参加しました"@,
{
    let mut out = name.to_owned();
    out.append(" さんが通話に参加しました");
    out
}

/// The leave announcement for a user name.
pub fn leave_announcement(name: &str) -> (r: String)
    ensures
        r@ == name@ + " さんが通話から退出しました"@,
{
    let mut out = name.to_owned();
    out.append(" さんが通話から退出しました");
    out
}

/// A decided autostart: bind a session to the voice channel with these
/// text channels.
#[derive(Debug, Clone)]
pub struct AutostartPlan {
    pub voice_channel: u64,
    pub text_channels: Vec<u64>,
}

/// Whether a voice-state event starts a session: announcements must be
/// on, no session may exist yet, and the joined channel must be the
/// guild's configured autostart channel. The plan reads the configured
/// autostart text channel first, then the voice channel itself.
pub fn autostart_plan(
    config: &ServerConfig,
    session_exists: bool,
    joined_channel: Option<u64>,
) -> (r: Option<AutostartPlan>)
    ensures
        r is Some <==> {
            &&& config.voice_state_announce != Option::Some(false)
            &&& !session_exists
            &&& joined_channel is Some
            &&& config.autostart_channel_id.unwrap_or(0) == joined_channel.unwrap()
        },
        r matches Some(p) ==> {
            &&& p.voice_channel == joined_channel.unwrap()
            &&& (match config.autostart_text_channel_id {
                Option::Some(t) => p.text_channels@ == seq![t, joined_channel.unwrap()],
                Option::None => p.text_channels@ == seq![joined_channel.unwrap()],
            })
        },
{
    let announce = match config.voice_state_announce {
        Option::Some(b) => b,
        Option::None => true,
    };
    if !announce || session_exists {
        return Option::None;
    }
    let joined = match joined_channel {
        Option::Some(c) => c,
        Option::None => {
            return Option::None;
        },
    };
    let autostart = match config.autostart_channel_id {
        Option::Some(c) => c,
        Option::None => 0,
    };
    if autostart != joined {
        return Option::None;
    }
    let mut text_channels: Vec<u64> = Vec::new();
    match config.autostart_text_channel_id {
        Option::Some(t) => {
            text_channels.push(t);
            text_channels.push(joined);
            proof {
                assert(text_channels@ =~= seq![t, joined]);
            }
        },
        Option::None => {
            text_channels.push(joined);
            proof {
                assert(text_channels@ =~= seq![joined]);
            }
        },
    }
    Option::Some(AutostartPlan { voice_channel: joined, text_channels })
}

} // verus!
