# walllit

The decision-making core of WallLit, an animated wallpaper for Windows, written
in Verus. Every function in `src/` carries a contract; Verus proves each one
except three small trusted wrappers around the standard library
(`str::to_lowercase`, `char::is_alphanumeric`, `String::push`), whose
contracts it takes as given.

- `src/` — the verified library: playback states, playlist rotation and
  schedules, pauses that keep an item's remaining time, retry backoff, the
  high-resolution clock arithmetic, occlusion scans, surface reuse, the
  engine's wake-up deadlines, session events, monitor identities, import
  naming and fingerprints, library search, storage cleanup, the size- and
  count-bounded cache, the engine's step from event to actions, autostart commands and the interface texts.
- `tests/` — the library exercised on concrete values.
- `app/` — the `walllit` command around it: reading the settings and the
  library index (serde), the file system, the clock and locale readings, and the
  registry. The Windows calls there are `unsafe` and the framing values are
  floating point, which is why they stay outside the library.
