# filter

The logic of a Kinode process that filters tweets by user-written rules with
the help of a chat model, verified with Verus.

- `src/` — the verified library: reading filter requests and tweet lists from
  JSON, routing HTTP requests, choosing how tweets are judged (random verdicts,
  the model, or letting everything pass), building the model prompts, reading
  the model's `0`/`1` answer, and the settings state with its JSON answer.
  serde_json (reading and writing JSON text) and rand (random verdicts) are
  called behind trusted wrappers in `src/json.rs` and `src/server.rs`.
- `tests/` — tests of the library on concrete values.
- `app/` — the process around it: Kinode messaging, HTTP answers, state
  storage with bincode, the model-worker clients, and serde copies of the
  library's message types.
