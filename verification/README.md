# openhuman

The verified core of the OpenHuman assistant, written in Verus.

- `src/` — the library. Each module states its behaviour in `requires` /
  `ensures` contracts over mathematical models (sequences of characters,
  schema shapes, queues of ids) and proves it: task routing between the
  local and remote model, the scheduler gate, focus-event dedup, parsing and
  redaction, reflection cues, controller schemas of every domain, event-bus
  routing decisions, calendar/reminder checks, the calendar fetch walk and
  the event-cache key, source-query assembly and the drill-down walk, skill
  storage naming and versions, the steps of the subconscious loop's tick,
  the vision-flush bookkeeping and server states of screen intelligence,
  and the text helpers they share.
- `tests/` — tests of the library on concrete values.
- `app/` — the I/O around the library: HTTP clients, SQLite stores and
  caches, file and process access, the floating-point embedding store, and
  serde forms of the library's records.
