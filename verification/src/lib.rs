//! Moderation logic of a Discord moderation bot: moderation cases, guild
//! configuration, the queries that find a user's cases, the embeds that
//! report them and the replies that each moderation command sends.

pub mod text;
pub mod case_id;
pub mod clock;
pub mod cases;
pub mod embed;
pub mod guild_config;
pub mod commands;
pub mod discord;
pub mod warn_flow;
