# vibe_kanban

The verified core of a local kanban board and of the log pipeline of the Kimi coding
agent, written in Verus.

- `src/` is the library. Every function there is verified against its `requires` and
  `ensures`; the few calls into `serde_json`, `chrono`, `uuid`, `strip-ansi-escapes` and
  std that stand behind trusted wrappers are marked `#[verifier::external_body]` and say
  in their doc comments what they claim.
  - `kimi`, `kimi_log`: classifying Kimi's stream-json lines, and the state machine that
    turns them into conversation patches; the wait for the session id.
  - `kanban`, `kanban_api`: stored rows, their API form, issue search, and the rows that
    create and update requests write.
  - `skills`, `file_ranker`, `config`, `workspace`, `text`, `json`: the rest.
  - Laws that relate several functions are public proof functions named `law_*`.
- `tests/` runs the library on concrete values.
- `app/` is the I/O around it: files, the environment, the Kimi process, and the serde
  forms of the library's types.
