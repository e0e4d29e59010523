# vedit

A command-line non-linear video editor: projects made of audio, video, image
and text tracks, undo/redo history, render presets, movement formulas, and the
FFmpeg command lines that render, preview or export a project.

## Layout

- `src/` — the library, verified with Verus. Every public function carries a
  contract over mathematical views (`Seq`, `Map`, `int`) of its inputs and
  result, and the laws that relate several functions stand as `law_*` proof
  functions.
  - `project/` — projects, tracks and clips, with the laws of adding and
    removing tracks and clips.
  - `history.rs` — bounded undo/redo history and its laws.
  - `motion/` — render regions, movement formulas and their presets.
  - `render/` — clip filters (colour, effects, rotation, Ken Burns), the
    composition plan with its layer order and shake removal, text overlays
    and the text preview, SubRip export, video/audio/frame exports.
  - `ffmpeg/` — the FFmpeg command builder.
  - `config.rs`, `cache.rs`, `context.rs`, `cli.rs`, `timeline.rs` — global
    configuration, cache locations, session state, command decisions and the
    text timeline.
  - `textutil.rs`, `numfmt.rs`, `ids.rs`, `clock.rs` — text and number
    rendering, identifiers and the clock.
- `app/` — the `vedit` program: argument parsing, project and configuration
  files, running `ffmpeg`/`ffprobe`/`ffplay`, and console output.
- `tests/` — tests of the library.

## Units

The library works in integers: times in milliseconds, volumes, speeds,
opacities and frame rates in thousandths, positions and scales in
ten-thousandths of the frame. Identifiers are the 128-bit values of UUIDs.
The files on disk keep seconds and factors as decimal numbers; `app/` converts.
