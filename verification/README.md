# levels

XP and levels for Discord guild members: counting messages towards levels, leaderboards and
rank cards, written in Verus with the rules proved.

- `src/` is the verified library:
  - `progress` — the level-up XP of a level and the XP needed to reach a level;
  - `rows` — the stored rows, the `LevelsRow` trait, and counting a message into a row;
  - `message_create` — the XP cooldown and counting a member's message;
  - `guild_xp` — levels from a total XP, blocked channels, the cooldown of guild messages,
    and the role a level earns;
  - `leaderboard` — leaderboard texts, buttons and page navigation;
  - `text` — decimal numbers and page footers;
  - `time`, `random` — the clock, time arithmetic and random XP, from `chrono` and `rand`;
  - `commands`, `error` — the slash command definitions and the error type.
- `app/` holds the Discord and database side: the `LevelsManager` database interface, the
  `sqlx` rows, and the async command and message handlers built with `serenity`.
- `tests/` runs the library on concrete values.
