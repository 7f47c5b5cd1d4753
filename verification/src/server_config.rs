//! Per-guild persisted configuration.
use vstd::prelude::*;

verus! {

use crate::dictionary::Dictionary;

/// A projection of the server configuration that carries only the
/// dictionary.
#[derive(Debug, Clone)]
pub struct DictionaryOnlyServerConfig {
    pub dictionary: Dictionary,
}

/// Per-guild settings: substitution rules, optional autostart channels,
/// and the two announcement toggles.
#[derive(Debug, Clone)]
pub struct ServerConfig {
    pub dictionary: Dictionary,
    pub autostart_channel_id: Option<u64>,
    pub autostart_text_channel_id: Option<u64>,
    pub voice_state_announce: Option<bool>,
    pub read_username: Option<bool>,
}

impl ServerConfig {
    /// A configuration holds the default dictionary: exactly the rule
    /// reading web addresses as "URL" and the rule reading fenced code
    /// blocks as "code".
    pub open spec fn spec_has_default_dictionary(self) -> bool {
        &&& self.dictionary.rules@.len() == 2
        &&& self.dictionary.rules@[0].id@ == "url"@
        &&& self.dictionary.rules@[0].is_regex
        &&& (self.dictionary.rules@[0].rule@
            == "(http://|https://){1}[\\w\\.\\-/:\\#\\?=\\&;%\\~\\+]+"@)
        &&& self.dictionary.rules@[0].to@ == "URL"@
        &&& self.dictionary.rules@[1].id@ == "code"@
        &&& self.dictionary.rules@[1].is_regex
        &&& (self.dictionary.rules@[1].rule@ == "```(.|\\n)*```"@)
        &&& self.dictionary.rules@[1].to@ == "code"@
    }

    /// The configuration a guild gets on first read: the default
    /// dictionary, no autostart channels, and both toggles on.
    pub fn default_config() -> (r: Self)
        ensures
            r.spec_has_default_dictionary(),
            r.autostart_channel_id is None,
            r.autostart_text_channel_id is None,
            r.voice_state_announce == Option::Some(true),
            r.read_username == Option::Some(true),
    {
        ServerConfig {
            dictionary: Dictionary::new(),
            autostart_channel_id: Option::None,
            autostart_text_channel_id: Option::None,
            voice_state_announce: Option::Some(true),
            read_username: Option::Some(true),
        }
    }

    /// Read-or-create-default: a stored configuration is kept, a missing
    /// one is replaced by the default, so a caller never sees "no config".
    pub fn or_default(stored: Option<ServerConfig>) -> (r: ServerConfig)
        ensures
            stored matches Some(c) ==> r == c,
            stored is None ==> {
                &&& r.spec_has_default_dictionary()
                &&& r.voice_state_announce == Option::Some(true)
                &&& r.read_username == Option::Some(true)
                &&& r.autostart_channel_id is None
                &&& r.autostart_text_channel_id is None
            },
    {
        match stored {
            Option::Some(c) => c,
            Option::None => ServerConfig::default_config(),
        }
    }
}

} // verus!
