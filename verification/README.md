# script_engine

A host for chat-bot scripts. The library (`src/`) is verified with Verus; `app/` runs
it against the QuickJS engine and the chat client.

- `src/text.rs`: decimal writing and reading of integers (with the proof that an id
  read back from its text is the same id), whitespace trimming, joining.
- `src/api/`: the values scripts see (chats, authors, rooms, links, sessions,
  messages, fetch requests and responses), ids as text, and the cache of chat titles.
- `src/engine.rs`: hooks, compiled scripts and what the engine's outcomes mean.
- `src/host.rs`: the loaded scripts, which of them hear a hook, and which hook each
  client event fires.
- `src/error.rs`: the host's failures and how they are shown.
