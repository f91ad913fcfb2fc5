# wayclip_daemon

The decisions of a background recorder for Wayland desktops. It keeps the last moments of
screen and sound in a ring buffer and writes them out as a clip when asked to.

The library is written in Verus: what each function returns or changes stands in its
contract, and the laws that hold between functions are public proof functions whose names
begin with `law_`.

- `src/` is the verified library. `ring` and `capture` hold the recorded past; `video`,
  `audio`, `remux` and `daemon` plan the media pipelines; `save` decides on clips; `watcher`
  decides when the capture is restarted; `discovery`, `window`, `steam` and `search` find out
  which game is played; `pipewire`, `desktop`, `controller`, `tray`, `notifications`,
  `discord`, `doctor` and `screencast` hold what the neighbouring services mean to the daemon.
- `app/` runs the library: it talks to the media framework, the audio server, the desktop
  portal and the buses, and hands plain values back and forth.
- `tests/` holds the tests of the library.

What comes from other crates and from the standard library without a specification is called
through a few small functions whose contracts are believed. Each says so in its comment.
