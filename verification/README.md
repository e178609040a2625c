# zapret_ui

The core of a Tauri desktop front end for the zapret DPI-bypass engine
(`winws.exe`), verified with Verus.

- `src/strategy.rs`: the built-in strategies (`default`, `ALT`, ..., `ALT9`).
- `src/lists.rs`: the seven list files, the store of their contents, the user
  lists created with placeholder content, and the preset check.
- `src/paths.rs`: directories under the engine's resource base.
- `src/winws.rs`: the engine's command line for the default strategy and the
  elevated PowerShell call that starts it.
- `src/process.rs`: the system commands run around the engine and the reading
  of the task list.
- `src/text.rs`: blank checks, joining, searching and lenient decoding.
- `app/lib.rs`: the Tauri commands, file system and process calls.
