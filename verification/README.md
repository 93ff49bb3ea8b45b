# nomi

The logic of an assistant server, verified with Verus: how model providers' streamed replies
are decoded and assembled, how request bodies are built, how API keys are sealed, how a user's
model configuration is resolved, when reminders recur, what the workers do once a task has run,
and how the HTTP handlers validate and shape their data.

- `src/` is the verified library (`nomi`):
  - `llm/` — request bodies and the JSON documents they are sent as, stream decoders for
    Anthropic, OpenAI-compatible and Gemini streams, the stream collector, the fake provider
    and provider configuration;
  - `settings/` — how a stored key is shown masked, and (`crypto.rs`) AES-256-GCM sealing of
    stored keys and key parsing;
  - `bootstrap.rs` — resolving the model and embedding configuration step by step;
  - `time.rs`, `schedule.rs` — UTC instants, the calendar, and reminder recurrence;
  - `workers.rs` — what the scheduler, delegation and turn workers do after a task has run;
  - `realtime.rs` — stream envelopes and what administrators may see of them;
  - `routes/` — validation and response shaping of the HTTP handlers;
  - `storage.rs` — project files on disk: paths, reads and deletions;
  - `text.rs`, `ids.rs`, `json.rs` — strings, UUIDs, JSON checks.
- `app/` is the process around it: the providers' HTTP calls, the database, the filesystem,
  the reminder loop and the delegation worker.
- `tests/` exercises the library on concrete values.
