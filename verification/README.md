# novadraw

The logic of the novadraw graphical editing framework (figures, edit parts,
tools and commands), verified with Verus.

- `src/` — the verified library: the command history with undo and redo,
  the interaction tools' state machines, edit parts and their registry, the
  save/restore discipline of graphics state, redraw scheduling, colour-code
  reading, the demo shell's key handling, and small helpers.
- `app/` — the `f64` layer that Verus cannot hold: vectors, matrices,
  rectangles and transforms, colours, render commands and the recording
  canvas, and the glue that connects the verified tools and commands to a
  scene.
- `tests/` — tests of the library.
