# gmsv_async_stdout

A Garry's Mod server module that takes `-condebug` log writing off the main
thread: the console print function is hooked, each message is sent over a
channel, and a background thread appends it to `garrysmod/console.log`.

- `src/` is the verified library: message framing (`message`), the background
  writer as a state machine with its laws (`writer`), signature parsing and
  search (`signature`), the Linux print hook's steps (`hooks`) and the
  per-platform tables (`platform`).
- `app/` is the module itself: the Lua entry points, the detours, module
  loading, the writer thread and the log file.
- `tests/` runs the library on concrete values.
