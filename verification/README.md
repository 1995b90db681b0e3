# Catacomb core

The decisions of the Catacomb Wayland compositor, written and proved in Verus.

The library holds what the compositor knows about its windows, its outputs and
its settings as plain values. Every function takes that state and an event, and
tells in its contract what the next state is and which work has to be done.
The work itself is described by values too: an `Action` is carried out by
whoever talks to Wayland clients, to the kernel and to other programs.

## Layout

- `src/windows/`: the window manager. `state.rs` holds its state, `scene.rs`
  what is known about clients, and `laws.rs` what holds of it as a whole.
- `src/backend/`: choice of connectors, display modes, buffer formats and
  frame times.
- `src/ipc.rs`: messages sent to the compositor.
- `src/xwayland.rs`: X11 windows.
- `src/app_id.rs`: App ID patterns. Their verdicts come from a regex engine and
  are handed in as a table.
- `src/command.rs`, `src/media.rs`, `src/process.rs`, `src/startup.rs`: commands,
  media players, child processes and logging.
- `src/text.rs`, `src/lists.rs`, `src/string_map.rs`, `src/trials.rs`,
  `src/geometry.rs`: tools.
- `tests/`: tests of the library.
- `app/`: the glue to Smithay, to the IPC socket and to other processes. It
  looks at the world, asks the library and carries out what it decides.

## What is taken on trust

The contracts of the `external_body` functions in `src/media.rs` (Unicode lower
case and decoding of UTF-8) and in `src/backend/formats.rs` (`IndexSet`) are not
proved. Their doc comments say what they claim.
