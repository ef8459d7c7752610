# modbot

The moderation logic of a Discord moderation bot, verified with Verus.

- `src/` is the library: moderation cases and the queries that find them again
  (`cases`), guild configuration and the moderator check (`guild_config`), the
  replies and decisions of each command (`commands`), the course of a warn as
  a state machine (`warn_flow`), embeds (`embed`), text
  rendering of numbers and UUIDs (`text`), and the calls into chrono, bson and
  serenity behind trusted wrappers (`clock`, `case_id`, `discord`).
- `app/` is the bot itself: poise commands, MongoDB storage and the serde
  layout of stored records.
- `tests/` runs the library with the real outside crates.
