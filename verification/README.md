# kenbun

The verified core of KenBun, a portable Windows tool that runs a Bun script in
the background, keeps its output and finds the port it listens on.

- `src/` — the library, proved with Verus:
  - `project.rs`: whether a folder is a runnable Bun project, and the error codes;
  - `server.rs`: start checks, the slot holding the one managed child (start,
    stop and exit-watch transitions), launch text and arguments,
    the shell commands that probe, free and kill;
  - `port_detect.rs`: reading the real port from output lines (via `regex`);
  - `history.rs`: the bounded log history;
  - `ui.rs`: tray labels, menu and window-event decisions, the version label;
  - `number.rs`, `text.rs`: decimal text and character helpers.
- `tests/` — tests on concrete values.
- `app/` — the Tauri application around the library: windows, tray, files,
  processes and threads.
