# reaper-fts-extensions

The decision logic of the FTS extension for the REAPER DAW, written in Verus
and proved against its contracts.

- `src/` is the verified library: the action table and its command ids, the
  continuous-action registry, the tempo-grid tools (move grid, snap to
  transient, time-signature insertion and undo), the MIDI editor modes, the
  mirror and volume-balancer state machines, menu and toolbar layout, and the
  settings that the extension stores. Each public function states its result
  in `ensures`; the laws that relate several functions are public proof
  functions named `law_*`.
- `tests/` runs the library on concrete values.
- `app/` is the plugin around the library: the entry point, the calls into
  the REAPER API, the timer loop and the floating-point tempo arithmetic.
