# meeting_desk

The verified core of MeetingDesk, a desktop tool that imports meeting recordings, has
them transcribed by a local or remote speech service, and turns the transcript into
structured, evidence-checked minutes that can be exported.

- `src/` is the library, written in Verus: settings and provider readiness, import
  limits and audio container checks, provider request and response mapping, retry and
  attempt decisions, minutes parsing, validation and rendering, export documents, task
  state, and log redaction. Calls into outside crates (chrono, serde_json, sha2, hex,
  regex, url via reqwest) sit behind small trusted wrappers whose contracts name what
  the call returns.
- `tests/` runs the library with the real outside crates linked.
- `app/` is the process around it: environment, files, HTTP transport, the local
  inference process, and Word and PDF rendering.
