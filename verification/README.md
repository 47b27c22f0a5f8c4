# codex_sessions

A verified library for two things that a coding agent does with sessions.

- `src/accounts`: the account sessions that a user has saved. Which accounts are saved, which one
  is in use, and what adding, listing, logging out and switching do with the list and with the
  credential in use.
- `src/merge`: bringing the context of a source thread into a target thread: the words around it,
  what the model is asked, the history and the record that are left.

Both are written as steps. An operation says what is to be done outside (read a file, ask a
service) and is handed back what came of it; it never does any of that itself. `runs.rs` in each
module states what holds of every run, whatever happens outside, and `laws.rs` what holds of the
data.

`src/text.rs`, `src/paths.rs`, `src/base64url.rs`, `src/ids.rs` and `src/clock.rs` hold what the
two share. The only unproved functions are the small ones around `base64`, `uuid` and `chrono` in
the last three.

`app/` carries the actions out: files, JSON, and the loops around the services.
