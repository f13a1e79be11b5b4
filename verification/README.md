# openpresenter

The window logic of OpenPresenter, a presentation program for live events,
as a library verified with Verus: which slide is selected and on air, how
slides, layers, verses and service-plan entries are reordered, undo and redo,
what the Bible panel turns a verse selection into, the media library, themes,
outputs and their settings, remote triggers and the service timer.

- `src/` is the verified library. Each module states its behaviour in
  `requires`/`ensures` contracts over spec functions and views, and holds the
  proof functions (`law_*`) that relate several operations.
- `tests/` runs the library on concrete values.
- `app/` holds what stays outside verification: reading the wall clock,
  locating media on disk, and the checks that come before library calls whose
  preconditions the window code has to meet.

Rendering (widgets, the slide canvas, animation progress) works with floating
point and the GUI toolkit, and is not part of the library.
