# fluss

The logic of a small retained-mode UI toolkit, verified with Verus.

`src/` is the verified library:

- `keys`, `events`, `legacy_events`: keys, key codes and input events; the
  translation of physical key codes into logical keys.
- `ui_state`, `layout`, `dependencies`, `state_view`, `update`: the bookkeeping of a
  view tree — the id of each view path, which views hold state and what
  changed, the layout rectangle of each path, which states a layout depends
  on, what must be drawn again, and the clean-up after a pass over the tree.
- `event_loop`: what each window event does in the event loops, when frames
  are drawn, and when the cursor is grabbed.
- `views`, `binding`, `align`, `commands`, `changed`: view modifiers, tap
  gestures, lenses and state handles.
- `color`: colours written in hexadecimal.
- `region`, `geometry`: regions of rectangles over `kurbo`'s geometry.
- `drawer_state`: the ids of a drawer's paints and fonts.
- `query`: reading a key from a URL query string.

`app/` is the ordinary Rust around it: the winit event loops, colours and
alignment in floating point, the context that stores state values of any
type, and the parser of the `view!` syntax.
