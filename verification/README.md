# stardive

The Stardive platform: a modular HTTP API (search, files, snippet rendering,
a lost-and-found service, Orbit Lua scripts, Web Push notifications, static
folders and an MCP proxy) and its command-line client.

## Layout

- `src/` — the library, verified with Verus. Every check and decision the
  server and the client make lives here with its contract: request
  validation, access control, configuration, the in-memory stores and indexes
  (newest-first ordering, lookups, updates), the tool command lines and what
  their exit status means, path handling, and the health report. Calls into
  outside crates (`chrono`, `uuid`, `which`, `sha2`, `http`, `base64`, `p256`,
  `web-push`, `dirs`) sit behind small trusted wrappers in `src/outside.rs`,
  each stating what the crate documents of it. Public proof functions named
  `law_*` state properties that span several operations.
- `tests/` — tests of the library on concrete values.
- `app/` — the programs around the library: the `axum` server (routes, disk
  persistence, child processes, Web Push delivery, logging) and the CLI
  (`clap`, `reqwest`). Started as `stardive-api` the binary serves the API;
  under any other name it is the CLI. The pages served beside the API are read
  from `STARDIVE_WEB_DIR` (default: the working directory).

The CLI has no `file gui` command: its desktop file manager window needs
`eframe`, which would take the dependency lock past its size limit. What the
file manager computes — the list line of each file and the id read back from a
line — is in `src/client.rs` (`FileGuiApp`, `file_label`, `label_id`); the
window, with its drag-and-drop uploads and its downloads, is not built.
