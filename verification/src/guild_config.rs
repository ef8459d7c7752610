//! The per-guild configuration of the bot, and the decisions that read it.

use vstd::prelude::*;

use crate::text::{append_decimal, decimal};

verus! {

/// A guild's configuration. Ids of guilds, channels and roles are Discord
/// snowflakes.
pub struct GuildConfig {
    /// The database's own id of the stored record (a BSON ObjectId), once stored.
    pub id: Option<[u8; 12]>,
    pub guild_id: u64,
    /// The number of active warns at which a user is banned.
    pub max_warns: u32,
    /// Warnings expire when their creation date exceeds the life span (in days).
    pub warn_life_span: u32,
    pub server_log_whitelist: Vec<u64>,
    pub ban_message: Option<String>,
    pub banned_words: Vec<String>,
    pub join_roles: Option<Vec<u64>>,
    pub mod_log_channel_id: Option<u64>,
    pub server_log_channel_id: Option<u64>,
    pub mute_role_id: Option<u64>,
    pub mod_role_id: Option<u64>,
}

/// Whether `config` is the configuration that a guild gets before anyone
/// configures it: up to 3 warns, warns live 7 days, an empty ban message, one
/// empty banned word, an empty list of join roles, and nothing else set.
pub open spec fn is_new_guild_config(config: GuildConfig, guild_id: u64) -> bool {
    &&& config.id is None
    &&& config.guild_id == guild_id
    &&& config.max_warns == 3
    &&& config.warn_life_span == 7
    &&& config.server_log_whitelist@.len() == 0
    &&& config.ban_message matches Some(m) && m@.len() == 0
    &&& config.banned_words@.len() == 1
    &&& config.banned_words@[0]@.len() == 0
    &&& config.join_roles matches Some(roles) && roles@.len() == 0
    &&& config.mod_log_channel_id is None
    &&& config.server_log_channel_id is None
    &&& config.mute_role_id is None
    &&& config.mod_role_id is None
}

/// The configuration of a guild that has none stored yet.
pub fn create_new_guild_config(guild_id: &u64) -> (config: GuildConfig)
    ensures
        is_new_guild_config(config, *guild_id),
{
    let mut banned_words: Vec<String> = Vec::new();
    banned_words.push(String::new());
    GuildConfig {
        id: None,
        guild_id: *guild_id,
        ban_message: Some(String::new()),
        banned_words,
        join_roles: Some(Vec::new()),
        max_warns: 3,
        mod_log_channel_id: None,
        server_log_channel_id: None,
        mod_role_id: None,
        mute_role_id: None,
        server_log_whitelist: Vec::new(),
        warn_life_span: 7,
    }
}

/// The value under which a guild's configuration is stored and looked up
/// (its `guildId`): the guild id in decimal.
pub fn guild_config_key(guild_id: u64) -> (key: String)
    ensures
        key@ == decimal(guild_id as nat),
{
    let mut key = String::new();
    append_decimal(&mut key, guild_id);
    key
}

/// The configuration to use for `guild_id` given what the lookup of its
/// stored configuration found, and whether it must be stored: a stored
/// configuration is used as it is; without one, a new configuration is made
/// and must be stored.
pub fn guild_config_or_new(guild_id: u64, found: Option<GuildConfig>) -> (r: (GuildConfig, bool))
    ensures
        match found {
            Some(stored) => r.0 == stored && !r.1,
            None => is_new_guild_config(r.0, guild_id) && r.1,
        },
{
    match found {
        Some(stored) => (stored, false),
        None => (create_new_guild_config(&guild_id), true),
    }
}

/// The channel that announces cases in a guild: the configured mod-log
/// channel, where one is configured and the guild has a channel with that id.
pub fn mod_log_channel(config: &GuildConfig, guild_channels: &Vec<u64>) -> (channel: Option<u64>)
    ensures
        channel == (if config.mod_log_channel_id matches Some(id) && guild_channels@.contains(id) {
            config.mod_log_channel_id
        } else {
            None
        }),
{
    match config.mod_log_channel_id {
        None => None,
        Some(id) => {
            let mut i: usize = 0;
            while i < guild_channels.len()
                invariant
                    0 <= i <= guild_channels@.len(),
                    config.mod_log_channel_id == Some(id),
                    forall|j: int| 0 <= j < i ==> guild_channels@[j] != id,
                decreases guild_channels@.len() - i,
            {
                if guild_channels[i] == id {
                    assert(guild_channels@[i as int] == id);
                    return Some(id);
                }
                i = i + 1;
            }
            None
        },
    }
}

/// Where a moderator check stands.
#[derive(Clone, Copy, Debug, PartialEq, Eq, Structural)]
pub enum ModCheck {
    /// The guild's configuration must be loaded.
    LoadConfig { guild_id: u64 },
    /// Whether the author has this role in the guild decides.
    CheckRole { guild_id: u64, role_id: u64 },
    /// The check is decided.
    Decided(bool),
}

/// The first step of the moderator check: a command from outside a guild is
/// refused; otherwise the guild's configuration is needed.
pub fn mod_check_start(guild_id: Option<u64>) -> (step: ModCheck)
    ensures
        step == (match guild_id {
            None => ModCheck::Decided(false),
            Some(g) => ModCheck::LoadConfig { guild_id: g },
        }),
{
    match guild_id {
        None => ModCheck::Decided(false),
        Some(g) => ModCheck::LoadConfig { guild_id: g },
    }
}

/// The moderator check once the guild's configuration is known: without a
/// configured moderator role the check fails; otherwise the author must have
/// that role.
pub fn mod_check_with_config(guild_id: u64, config: &GuildConfig) -> (step: ModCheck)
    ensures
        step == (match config.mod_role_id {
            None => ModCheck::Decided(false),
            Some(role) => ModCheck::CheckRole { guild_id, role_id: role },
        }),
{
    match config.mod_role_id {
        None => ModCheck::Decided(false),
        Some(role) => ModCheck::CheckRole { guild_id, role_id: role },
    }
}

} // verus!
