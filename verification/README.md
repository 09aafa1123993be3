# agent_sessions

The decision logic of an agent platform, verified with Verus: how sessions
over Cursor cloud agents are journaled, replayed and caught up, who is notified
of what, how a harness announces and routes, and when a browser's query cache
may be used, reset or closed.

- `src/` is the library. Every module is a pure function or a plain state
  machine with its contract; what holds of several functions together is a
  `law_…` proof function beside them (`cursor/laws.rs` for whole sessions).
  - `cursor/` — sessions over Cursor cloud agents: the provider's vocabulary
    (`model`, `models`, `event`, `wire`, `api`), the journal and its replay
    (`journal`, `projection`, `session`), and the machines a host drives
    (`ingest`, `polling`, `queueing`, `turn`, `stopping`, `backfill`,
    `loading`, `registry`).
  - `cache/` — the browser's query cache: operation ids, the latch, storage
    lifecycle, writes, filters, and the answers a page is given.
  - `notifications/` — which lifecycle facts become news, and how they are
    consumed.
  - `sessions/` — session identities and lifecycle facts.
  - `harness/` — announcements, mentions, repository choice, errors.
  - `fold/` — reading what Cursor's own tools report.
  - `text`, `decimal`, `json`, `ordered`, `identity` — what the rest is stated
    over.
- `tests/` runs the library with its outside crates linked.
- `app/` is the ordinary Rust around it: start-up, the drivers that perform
  each machine's actions, and the formats on the wire.

A machine is driven the same way everywhere: `start` gives the first action,
the host performs it and hands the event to `step`, which gives the next one.
`expects` says whether an event answers what the machine is waiting for.
