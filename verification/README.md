# evtr

`evtr` is a terminal UI for inspecting Linux evdev input devices: pick a
device from `/dev/input/event*`, then watch its axes, relative motion,
buttons, hats, joysticks and touch contacts update live.

The decisions of the program are a library verified with Verus; the
terminal and device I/O around it is ordinary Rust.

## Layout

- `src/` — the verified library.
  - `monitor/` — the device monitor: the input model and its event
    routing (`model`), touch tracking (`touch`), the startup inspection of a
    device (`bootstrap`), key bindings and commands (`controls`), the
    monitor state machine (`state`), panel layout (`layout`, `plan`) and the
    geometry of each widget (`render`).
  - `selector/` — the device selector: discovery issues, the fuzzy filter,
    key bindings and the selector state machine.
  - `ui/` — text width and truncation, number formatting, popup placement.
  - `keys.rs`, `rect.rs`, `error.rs` — key events, cell rectangles, errors.
- `tests/` — tests of the library.
- `app/` — the terminal program: device discovery and reading, the event
  loops and drawing with `ratatui`.

Contracts are stated over spec functions in each module; public proof
functions named `law_*` and `lemma_*` state the properties that span
several calls, such as that every input event reaches the input it names,
that toggling a popup twice leaves it as it was (closed again, or open
again where it was already the open popup), or that scrolling stays within
the bounds of the last frame.

## Frame planning

`monitor::plan::plan_areas` asks the box layout for the panels the device
has and the content is wide enough for, and places them in one column:
the buttons box is part of that layout rather than a separate column
beside it, and the absolute and relative axes share a single axes box,
listed absolute first and scrolled as one list. `build_render_plan` then
measures what shows at once (the gauges that fit the axes area and the
button rows of a grid that can be drawn), and `ScrollBounds::from_capacities`
lets each section scroll just far enough to show its last gauge or row;
a section that fits does not scroll. The scroll positions of the state are
clamped to those bounds.
