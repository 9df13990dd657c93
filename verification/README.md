# Anvil

The window-management rules of the Anvil compositor, verified with Verus.

- `src/geometry.rs`: points, sizes and rectangles, and the merging of
  rectangles.
- `src/shell/ssd.rs`: the header bar that the server draws above a window.
- `src/shell/element.rs`: windows, their numbers, what is under the pointer and
  what is drawn.
- `src/shell/xdg.rs`: the requests of xdg-shell clients and the grabs of popups.
- `src/plugins.rs`: the layout plugins that run in wasmtime.

The library works on plain values. A rule that needs something done gives back
what has to be done, and `app/` carries it out with smithay, Slint and wasmtime.
`app/shell/header_ui.rs` uses the component `WindowHeader` that Slint makes of
the interface's own source. The rest of the compositor implements the traits
`Compositor` in `app/shell/mod.rs` and `LayoutPlugin` in `app/plugins.rs`.

The library does not link against smithay: every program that does needs the
system library xkbcommon at link time, the library's own tests included. What
only smithay can compute, such as where a positioner puts a popup, is handed to
the library as a function, and the contracts speak of what that function gives.

Sums and differences of coordinates saturate. The library makes wasmtime's
engine, linker and stores itself. The contracts say that the linker is one that
wasmtime gives for the manager's engine, and that a plugin's store is one that
it gives for that engine and the state just made. What those calls give is not
described further. Of an engine the library assumes that it takes components if
and only if they are switched on in its settings.
