# oled_wallpaper

An animated galaxy wallpaper for OLED screens, with a small configurator.
The decisions it makes are a Verus-verified library; the window, the GPU
renderer, the file system and the network stay in an ordinary Rust program
around it.

## Layout

- `src/` — the verified library.
  - `text` — trimming, lines, whitespace tokens and decimal numbers over
    `Seq<char>`, with the lemmas the parsers rest on.
  - `runtime` — paths of the shared files, Flatpak detection, the autostart
    entry and its staleness, the single-instance lock file, and the restart
    handshake as a step function (phase and event in, next phase and action
    out).
  - `weather` — weather codes, air-quality categories, the visual effects a
    condition switches on, and which request the poller makes.
  - `widgets` — widget precedence, weather glyphs, and the clock and
    calendar text (formatted by `chrono`, behind two trusted wrappers).
  - `perf` — readings out of `/proc` text: DRM `fdinfo` totals, CPU ticks,
    resident memory.
  - `configurator` — the wording and buttons of the configurator's runtime
    panel, and the bounded history its usage graph draws.
  - `physics` — the identity checks of bodies and orbits.
  - `renderer` — the render pipeline description and the scene's entity
    list.
  - `config`, `rng`, `wallpaper`, `error` — provider choice and defaults,
    the xorshift generator, display-server detection, the error type.
- `tests/` — tests run against the compiled library.
- `app/` — the programs: the wgpu wallpaper, the egui configurator and its
  headless command line, configuration files, weather requests, and all
  floating-point geometry, physics and animation.

Every contract in `src/` is checked by Verus; the trusted items are the
declaration of `std::io::Error`, its message text, and the two `chrono`
wrappers in `widgets`.
