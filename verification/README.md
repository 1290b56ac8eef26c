# cursor_trail

A Windows overlay that draws a fading trail behind the mouse cursor and an
optional avatar hanging from it on a rope.

- `src/` is the library, verified with Verus: the configuration values the
  logic reads, the tracker that decides when the overlay hides, the frame
  buffer (its BGRA layout, pixel addressing, sprite packing and sampling),
  the overlay window's style bits and class name, the number of points the
  trail keeps, the tray icon's bitmap, and the application icon made from
  its PNG bytes through the `image` crate.
- `app/` is the program around it: the command line, the TOML file and its
  watcher, the Win32 window, the tray menu, the settings window, and the
  drawing and rope physics, which work in floating point.
- `tests/` exercises the library on concrete values.
