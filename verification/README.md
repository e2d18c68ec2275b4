# shrs_presence

Discord rich presence for the `shrs` shell: a shell plugin that announces
each shell session and its commands to a small local server, and the server
that keeps the sessions and shows a summary as a Discord activity.

- `src/` is the verified library (Verus):
  - `server/` — the server's state (sessions, command count, activity) and
    what its routes and its heartbeat do;
  - `plugin/` — the plugin's requests, its `presence` builtin and the launch
    agent it installs;
  - `standalone/` — Discord presence driven from inside the shell itself,
    with a `presence` builtin that has `connect` and `disconnect`;
  - `discord.rs`, `ids.rs` — the Discord IPC client and UUIDs, reached
    through small trusted wrappers;
  - `text.rs` — decimal numbers and path joining with exact specifications.
- `app/` is the unverified program around it: HTTP (axum, reqwest), clocks,
  the tokio runtime, files and `launchctl`, and the `shrs` plugin wiring.
- `tests/` runs the library on concrete values.
