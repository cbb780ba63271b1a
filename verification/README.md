# policast

Screen casting over a local network: a caster captures (part of) a screen
with ffmpeg, serves it as an HLS stream and announces itself by UDP
broadcast; a player discovers casters, plays a stream and can save it.

## Layout

- `src/` is the library, verified with Verus. It holds the logic with its
  contracts: the ffmpeg command lines (`ffmpeg`, `capture`, `decoder`), the
  parsing of ffmpeg's device listing (`devices`), crop geometry (`crop`),
  hotkey bindings (`hotkey`), the playback state machine (`playback`),
  caster discovery (`server`), the capture controllers (`capturer`,
  `videocaster`, `screen`), navigation between views (`gui`), the steps of
  the worker loops (`worker`) and text helpers (`text`, `util`, `assoc`).
  Calls into `regex`, `fraction`, `image` and `std::path` go through a few
  trusted wrappers, each documented where it stands.
- `tests/` runs the library on concrete values.
- `app/` is the program around the library: the window (egui/eframe),
  processes, sockets, files and threads. Verus does not read it.
