# Galaxy Book Camera

A GNOME camera application for Samsung Galaxy Book laptops, built on
`libcamera`, GTK 4 and libadwaita, with its core written in Verus.

## Layout

- `src/` — the verified library (`galaxybook_camera`):
  - `config` — the settings file: reading, writing, and the proof that
    reading back what was written gives the settings again;
  - `localization` — locale names, placeholders in messages, and the
    localized application name from GNOME Snapshot's desktop file;
  - `paths`, `clock` — where photos, videos, the configuration, the tuning
    file and the single-instance socket live, and the format of the file
    names' timestamps;
  - `frame`, `resolution`, `photo` — RGBA frames (packing, scaling,
    mirroring, preview size), preview resolutions and zoom levels, and the
    JPEG encoding of photos;
  - `audio`, `ffmpeg` — PulseAudio sources, encoder choice, the ffmpeg
    command lines and the reading of ffmpeg's reports;
  - `capture`, `worker`, `singleton`, `cli` — the decisions of the capture
    button and its countdown, of the camera worker, of the single-instance
    guard and of the command line;
  - `text` — character-level helpers shared by the parsers.
- `tests/` — tests of the library on concrete values.
- `app/` — the program around it: the GTK window, the libcamera session,
  running ffmpeg, gettext, the clock, reading the environment and files, and
  the floating-point image adjustments.
