# GrooveTui

A guitar practice companion for the terminal: metronome, harmony
suggestions with a fretboard view, a tuner, and YouTube backing tracks
(searched with `yt-dlp`, played with `mpv`).

## Layout

- `src/` is the library, verified with Verus. It holds every decision the
  program makes: the harmony state and its scale suggestions
  (`music`), what a track's title and search text say about key, quality and
  genre (`inference`), the backing-track tab (`backing`), the tuner controls
  and sample buffers (`tuner`), the click thread's commands and the capture's
  block gathering (`audio`), the whole application state (`app`), the key
  bindings (`input`) and the texts and fretboard marks on screen (`display`).
  `laws` states the properties that span several of these.
- `app/` is the program around it: the terminal and its drawing, the sound
  devices, pitch measurement, and the `yt-dlp` and `mpv` processes. It asks
  the library what to do and reports back what happened.
- `tests/` exercises the library on concrete values.

Note names and scales come from `rust_music_theory`, called from the library.
