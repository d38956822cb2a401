# interprep

The logic of InterPrep, an interview-prep desktop program, as a Verus library
whose functions carry `requires`/`ensures` contracts proved by Verus.

- `src/desktop/` — the native desktop program: its application state and the
  operations on it (jobs, chats, stages, streams, resumes), the command line,
  the server-sent-event reader, markdown layout, the calendar, the recorder's
  sample decoding and device listing, and file locations.
- `src/shell/` — the shell around the web front end: the backend bridge and its
  token, the backend's start-up arguments and port, event streams, replies of
  the voice calls, the voice question loop, and credentials.
- `src/sse.rs`, `src/text.rs`, `src/keychain.rs` — shared pieces: event payloads,
  text specifications and helpers, and the OS keychain.
- `laws.rs` in each part — properties that span several operations.
- `app/` — ordinary Rust around the library: the program's `main`, windows,
  audio capture, processes, HTTP and files.
- `tests/` — tests of the library on concrete values.
