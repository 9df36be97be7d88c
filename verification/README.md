# yamato

The settings window of Yamato, a fan controller for ThinkPads: what it knows and
what it decides, verified with Verus.

- `src/` is the library. Settings rows and what a click moves them on to
  (`knob`), the settings file and its profiles (`config`), what the engine
  reports and is told (`readout`, `settings`), things done in several steps with
  files, dialogs and the engine in between (`job`), the profile menu (`menu`),
  the shape of a curve (`point`), what a message from the system asks for
  (`input`), what the panels say (`panel`, `text`), and the sizes they are laid
  out with (`layout`). `laws` states what holds across all of these.
- `app/` is the window around it: geometry in floating point, the job runner,
  and the Direct2D drawing, which only runs on Windows. The rest of the
  program reaches it through the traits in `app/host.rs`.
- `tests/` runs the library.

The engine's constants, the ranges of the settings file and the conversion of
temperatures belong to other parts of the program and come in as arguments.
