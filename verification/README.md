# help_bot

A Discord bot that runs a help desk: members pick a category and a channel,
confirm, and get a thread for their question, which they can then title once
with `/topic`; administrators set up the channels and the help categories
with slash commands.

- `src/` is the verified library (Verus): the bounded LRU caches that track
  the help flow (`cache`, over the `lru` crate in `lru_cache`), the slash
  command model and registry (`command`), the commands (`commands`) and
  component interactions (`interactions`) as decisions from plain inputs to
  replies, the wiring of the bot (`handler`), and text helpers (`text`).
- `app/` is the program around it: configuration and token files, the
  SQLite database, and the Discord gateway and HTTP calls through serenity.
- `tests/` exercise the library on concrete values.
