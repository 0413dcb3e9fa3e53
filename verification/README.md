# spice_client

A SPICE remote-display client whose decisions are verified with Verus.

- `src/` is the verified library. It holds the channel table of a
  connection and the plan for each channel that the session announces, the
  state of the main, display, inputs, cursor and mouse channels, the reading
  of GObject signal arguments, the answer to each window event, the XT
  scancodes of keys, the decimal port text, and the vertex, viewport and
  texture data that the renderer uploads.
- `app/` performs those decisions: it wires the GObject signals of
  libspice-client-glib, calls its C entry points, runs the winit event loop
  and drives Metal. It builds only where GLib's development files and
  Apple's frameworks are present.
- `tests/` runs the library on concrete values.
