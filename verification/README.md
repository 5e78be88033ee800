# Gather

Gather is a Discord bot that organises multiplayer sessions in forum
channels: members create "looking for group" posts, Gather pings the role
of the chosen type, warns about inactive posts and deletes completed or
abandoned ones.

## Layout

- `src/` is the library, written in Verus and verified:
  - `session`, `session_manager`, `session_laws`: the tracked forum posts,
    their inactivity timers and the table that holds them.
  - `guild_config`, `guild_config_laws`: per-server channel configuration and
    LFG types with their role cache.
  - `lfg`, `events`: the decisions of `/lfg-create` and of the gateway event
    handler, as state machines that name the Discord call to make next.
  - `permissions`, `commands`, `reply`, `text`, `housekeeping`, `presence`:
    replies, permission reports, mentions and links, warning texts and the
    presence rotation.
- `app/` is the bot around it: the poise commands, the Discord and SQLite
  calls, and the background loops. It hands the library plain values and
  performs the actions the library decides on.
- `tests/` runs the library on concrete values.
