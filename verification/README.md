# Alembic

Alembic launches Asheron's Call clients, injects a DLL into them and shows
what the injected client reports. This crate holds its logic, verified with
Verus, and the `alembic` command line around it.

## Layout

- `src/settings.rs`: servers, accounts, clients and their DLLs, with the
  selection of each; `selections_valid` is the invariant that every command
  keeps.
- `src/commands.rs`: the `alembic config ...`, `launch`, `exec` and `inject`
  commands as functions on the settings.
- `src/laws.rs`: properties that relate several commands.
- `src/scanner.rs`: what the client scanners compute from paths and from the
  output of `whisky`.
- `src/backend.rs`, `src/ring.rs`: the desktop application's state and the
  bounded buffers (from the `ringbuffer` crate) that hold the client's logs,
  packets and chat.
- `src/widgets/`: the pages and widgets of the desktop application: what each
  button or field does to their state and to the settings.
- `src/launch.rs`: launching from the desktop application and from `cork`.
- `src/dll.rs`: the decisions of the injected DLL.
- `src/env.rs`, `src/text.rs`, `src/format.rs`, `src/args.rs`: environment
  maps, string helpers, decimal numbers and `KEY=value` arguments.
- `app/`: the command line: argument parsing, the JSON settings file, the
  file-system and process work of the scanners, prompts and printing.
- `tests/`: tests of the library.
