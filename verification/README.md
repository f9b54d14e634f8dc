# clickr

An autoclicker for Linux Wayland with a terminal interface: a uinput virtual
mouse clicks at 1–1000 clicks per second (single, double or held clicks, with
optional jitter), toggled from any window by a global F6–F12 hotkey read from
the keyboards through evdev.

The decisions of the program live in a library verified with Verus
(`src/`); the program around it (`app/`) does the input and output.

## Layout

- `src/app.rs` — mouse buttons, click modes, hotkeys, settings, and the
  shared state with its debounced toggle.
- `src/ui.rs` — what each key of the interface does, including the CPS entry
  field.
- `src/clicker.rs` — the clicker loop as a state machine: what to emit, when
  to sleep, when to count, release and stop.
- `src/hotkey.rs` — device names, which key events toggle, and when a
  listener gives up on its device.
- `src/registry.rs` — which devices have a listener, and the retry back-off
  for devices that cannot be opened.
- `src/layout.rs` — placement of the panel and of the speed label.
- `src/launch.rs` — the refusal to run with elevated privileges.
- `src/clock.rs` — monotonic clock readings.
- `app/` — `main`, the threads, evdev and uinput, ratatui drawing, crossterm
  input, desktop notifications.
- `tests/` — tests of the library.
