# xwayland-satellite

Rootless Xwayland for compositors that implement `xdg_wm_base` and viewporter and do not manage X11
windows themselves.

The program is a Wayland client of the compositor, a Wayland server for Xwayland and an X11 window
manager at once. What it decides is a library, verified with [Verus](https://github.com/verus-lang/verus);
what it sends and receives is ordinary Rust around that library.

## Layout

- `src/` is the library. It works on plain values: windows and entities are numbers, scales are
  120ths, pointer positions are 256ths, times are milliseconds.
  - `world`, `state`: the entities, and the state that all decisions are made on.
  - `geometry`, `window`, `resize`, `configure`: X11 windows, and what their configure requests
    come to.
  - `role`, `roles`, `surface`, `surface_events`, `viewport`, `windows`: surfaces with their
    toplevels and popups.
  - `output`, `scale`: where outputs are, and the scale that X11 clients are told.
  - `pointer`, `focus`, `tablet`: input.
  - `batch`: what follows once all events of a batch were handled.
  - `decoration`, `frame`, `titlebar`, `decorated`, `shadow`: decorations drawn for windows that
    the compositor does not decorate.
  - `selection`: the clipboard and the primary selection.
  - `xstate`, `xevents`: properties and events of the X server.
  - `globals`, `events`, `shunt`, `text`, `activation`, `args`, `launch`, `color_scheme`: the rest.
- `tests/` runs the library.
- `app/` is the program: sockets, protocols, floating point scaling and drawing.

## What is trusted

Entities are kept in a `hecs::World`. Its methods are called through the functions of `world` that
are marked as external; their contracts say what each does to the parts and names of all entities.
Besides these, the library trusts `OwnedValue` conversions of zbus (`color_scheme`), two text
conversions of the standard library (`xstate`) and one colour constructor of tiny-skia (`shadow`).
