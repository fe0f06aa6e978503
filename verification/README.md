# icy_draw editor logic

The decisions behind the ANSI art editor of Icy Draw, written in Verus and
proved against their contracts: document format modes, the file settings,
font selector and tag dialogs, selection dragging and resizing, key handling
per tool, brush stamps, palette and tool grids, the segmented control and
F-key toolbar layouts, glyph atlases, guide and raster markers.

- `src/` is the verified library. Each module states its model with spec
  functions; public proof functions state what holds across operations (a
  point inside a segment hits it, comments cut to the SAUCE limits are within
  them, paging through F-key sets back and forth returns to the same set, ...).
- `tests/` runs the library on concrete values.
- `app/` holds what stays outside the proofs: floating-point pixel geometry
  and animation, and a process-wide counter.
