# Forma Fractalis (verified core)

Forma Fractalis renders fractals (Mandelbrot, Julia, Burning Ship, Tetration,
Lemon and others), maps iteration counts to colours and exports PNG images
that carry their render settings, so that an export can be loaded back and
rendered again.

## Layout

- `src/` is the library, verified with Verus:
  - `text.rs`: the grammar of the values read back from text (trimming,
    unsigned integers, booleans, float literals) and decimal
    writing, each proved against a spec of the standard library's behaviour;
  - `export.rs`: the text chunks an export writes, the decoder that reads
    them back with its error order and defaults, the fractal-type and filter
    names, and the export file name; with the round-trip law;
  - `color_picker.rs`: the hex field of the colour picker, with its round trip;
  - `app_state.rs`, `fractals.rs`, `filtering.rs`, `gpu.rs`,
    `colorschemes.rs`, `gui.rs`, `fractal_gui.rs`: the fractal catalogue,
    side-panel inputs, export settings and small enums.
- `tests/` exercises the library, including against the standard library.
- `app/` is the command-line program: the floating-point iteration of each
  fractal, rendering with rayon and scala-chromatica, PNG and JSON I/O, GIF
  animation, and the clap front end.
