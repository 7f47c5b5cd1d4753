//! Key layout of the persistence store.
//!
//! The store itself is a string-keyed JSON capability that lives outside
//! the library; everything the library contributes is the exact key each
//! record lives under.
use vstd::prelude::*;

verus! {

use crate::text::spec_u64_dec;
use crate::text::u64_to_string;

/// The key of a guild's legacy settings record.
pub fn server_key(server_id: u64) -> (r: String)
    ensures
        r@ == "discord:server:"@ + spec_u64_dec(server_id as int),
{
    let mut out = "discord:server:".to_owned();
    let n = u64_to_string(server_id);
    out.append(n.as_str());
    out
}

/// The key of a user's legacy settings record.
pub fn user_key(user_id: u64) -> (r: String)
    ensures
        r@ == "discord:user:"@ + spec_u64_dec(user_id as int),
{
    let mut out = "discord:user:".to_owned();
    let n = u64_to_string(user_id);
    out.append(n.as_str());
    out
}

/// The key of a guild's persisted session record.
pub fn tts_instance_key(guild_id: u64) -> (r: String)
    ensures
        r@ == "tts:instance:"@ + spec_u64_dec(guild_id as int),
{
    let mut out = "tts:instance:".to_owned();
    let n = u64_to_string(guild_id);
    out.append(n.as_str());
    out
}

/// The key of the set of guild ids with an active session.
pub fn tts_instances_list_key() -> (r: String)
    ensures
        r@ == "tts:instances"@,
{
    "tts:instances".to_owned()
}

/// The key of a user's per-guild configuration record.
pub fn user_config_key(guild_id: u64, user_id: u64) -> (r: String)
    ensures
        r@ == "user:config:"@ + spec_u64_dec(guild_id as int) + ":"@ + spec_u64_dec(
            user_id as int,
        ),
{
    let mut out = "user:config:".to_owned();
    let g = u64_to_string(guild_id);
    out.append(g.as_str());
    out.append(":");
    let u = u64_to_string(user_id);
    out.append(u.as_str());
    proof {
        assert(out@ =~= "user:config:"@ + spec_u64_dec(guild_id as int) + ":"@ + spec_u64_dec(
            user_id as int,
        ));
    }
    out
}

/// The key of a guild's configuration record.
pub fn server_config_key(guild_id: u64) -> (r: String)
    ensures
        r@ == "server:config:"@ + spec_u64_dec(guild_id as int),
{
    let mut out = "server:config:".to_owned();
    let n = u64_to_string(guild_id);
    out.append(n.as_str());
    out
}

/// The key of a guild's dictionary record.
pub fn dictionary_key(guild_id: u64) -> (r: String)
    ensures
        r@ == "dictionary:"@ + spec_u64_dec(guild_id as int),
{
    let mut out = "dictionary:".to_owned();
    let n = u64_to_string(guild_id);
    out.append(n.as_str());
    out
}

} // verus!
