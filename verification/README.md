# demiarch_core

The core of an AI-assisted application builder, written in Verus: the
executable code carries `requires` / `ensures` contracts that Verus proves.

## Layout

- `src/` — the verified library.
  - `session/` — sessions, their statuses and phases, events, stored rows,
    the lifecycle decisions of the session manager (with the proof that at
    most one session is active) and the bookkeeping of shutdown.
  - `skills/` — learned skills, their categories and confidence, skill
    entities found in debugging sessions, the pattern analysis of session
    events (errors and their solutions, techniques, relationships), the
    extraction prompt and the reading of a model's answer, and search merging.
  - `llm/` — chat and embedding request types, streamed responses, error
    statuses, retries, fallback between models and token estimates.
  - `image/` — image request types, the model catalogue, retry and fallback
    rules, image detection and decoding of API answers, local upscaling.
  - `knowledge.rs` — the paths that knowledge-graph traversals return.
  - `specification.rs` — composable specifications and their laws.
  - `json.rs` — JSON documents as library values and the members of objects.
  - `routing.rs`, `error.rs`, `security.rs`, `backoff.rs`, `http.rs`,
    `text.rs`, `ids.rs`, `clock.rs` — shared types and helpers.
- `tests/` — tests of the library on concrete values.
- `app/` — ordinary Rust around the library: HTTP clients, SQLite storage of
  sessions and skills, shutdown, JSON shapes, file I/O, the floating-point
  scores, and model selection by Thompson sampling.

Calls into outside crates (uuid, chrono, base64, serde_json, sha2, image,
reqwest) stand behind small trusted wrappers whose doc comments say what
their contracts claim.
