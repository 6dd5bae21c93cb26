# lockbook

Verified logic of the Lockbook clients, written in Verus.

- `src/keyboard.rs`: macOS virtual key codes to keys, which keys type text, and
  which editor key each stands for.
- `src/cursor.rs`: cursor shapes to X11 cursor-theme names.
- `src/pointer.rs`: X11 button events to scroll and mouse-button events.
- `src/clipboard.rs`: the X11 clipboard-paste protocol as a state machine
  (targets, data, incremental transfers) and the texts a paste produces.
- `src/workspace_ffi.rs`: the C-interface types of the workspace (text ranges,
  layout directions, granularities, UUIDs).
- `src/toolbar.rs`: the editor toolbar's buttons, their effects and the heading
  cycle.
- `src/backend.rs`: the Linux backend's decisions around the core library:
  database setup, error messages, spelling a file's path, and the sync loop as
  a state machine.
- `src/server_file.rs`, `src/logger.rs`: versioned server files and the log
  filter.

`app/` holds the glue to X11, egui, tracing and the core library; it performs
the requests that the state machines ask for and feeds back their results.
