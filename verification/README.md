# linuxpet

A desktop pet companion: cats, dogs and fish that idle, walk, sleep, react to
clicks and panic when the CPU stays busy, with a small statistics HUD.

- `src/` is the verified library (Verus): the pet state machine and the
  built-in pets (`pet/`), GIF sprite decoding with its placeholder, the
  sample history and rate text of the HUD (`stats.rs`), plugin manifests,
  loading rules, the plugin registry and plugin pets (`plugin.rs`), glyph
  blending (`font.rs`), and the window's
  interaction rules — menu, hit-testing, dragging, window extent and pixel
  packing (`renderer.rs`).
- `app/` is the program around it: command line, configuration file, window
  and event loop, drawing, system polling, plugin discovery and hot reload.
- `tests/` exercises the library on concrete values.

Sprites and the HUD font are read at start-up from an `assets/` directory next
to the executable (`cat/`, `dog/`, `fish/` GIFs and
`fonts/JetBrainsMono-Regular.ttf`); a sprite that is missing shows as a
magenta placeholder, and without the font the HUD shows no text.
