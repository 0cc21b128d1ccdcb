# SuperScrub

A library for building slideshow/video projects in code — clips, groups,
animations, audio clips, opacity and Ken Burns effects, with validation
that reports every problem of a project at once — and the playback logic
of its preview editor.

- `src/` is the library, verified with Verus. Times and values are kept as
  the bit patterns of IEEE-754 numbers (`Seconds`, `Scalar`) and compared
  by the exact IEEE rules; arithmetic on them (time offsets, opacity
  factors, fade sums, pan distances, formatting) is passed in by the caller
  as closures, and the contracts speak of what those closures return.
- `tests/` exercises the library on concrete values.
- `app/` is the editor program around it: settings and project files,
  the egui panels, the preview render threads, file watching and audio.
