# native_shortcut

Single-modifier-key shortcuts (Right Option, Left Command, ...) for a
push-to-talk / toggle voice recorder on macOS, with the decisions on each
keyboard and media-key event verified by Verus.

- `src/shortcut.rs`: the shortcut names, keycodes and modifier flag bits.
- `src/listener.rs`: what a keyboard event does to the listener and which
  recording command it gives (start, stop, toggle, cancel).
- `src/media_key.rs`: routing of media-key events and decoding of their
  `data1` word; when the play/pause key toggles recording.
- `src/permission.rs`: microphone and accessibility permission decisions.
- `app/lib.rs`: the macOS event taps, permission prompts and front-end
  commands that feed events to the library and carry out its commands.
