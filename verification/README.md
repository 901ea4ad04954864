# mouse_coords

Exact mouse-cursor coordinates, with the decisions of every backend verified
in Verus.

- `src/` is the verified library: the choice of backend for an operating
  system and session (`platform`, `platform/linux.rs`), the text handling they
  share (`text.rs`: Unicode trimming, `i32` parsing and rendering, ASCII case
  folding, substring search, Unix path joining), the GNOME probe order and
  `Eval` result fields (`platform/gnome.rs`), the Hyprland socket search,
  request, bounded reply and `cursorpos` parser (`platform/hyprland.rs`), and
  the KWin script, names and round trip (`platform/kwin.rs`). Backends that
  wait on the outside world are state machines: given what happened, they say
  what to do next.
- `app/` performs the I/O those machines ask for (environment, Unix socket,
  D-Bus through zbus, X11 through x11rb, the OS calls on macOS and Windows)
  and offers `get_position()` with its `Display`-able error.
- `tests/` runs the library on concrete values.
