# DJI Live Bridge

A bridge that takes the RTMP stream DJI Fly sends over the LAN, serves it
through a MediaMTX sidecar, builds the production with FFmpeg and forwards it
to several RTMP destinations at once, with an optional OBS integration and a
virtual camera.

## Layout

- `src/` is the library, verified with Verus. It holds the decisions of the
  bridge: the workflow and its monitor schedule, the configuration and its
  destination list, the FFmpeg command lines, MediaMTX's answers, the OBS
  WebSocket handshake and replies, the network and microphone discovery
  parsers, process supervision, secret redaction and the diagnostics.
  `text.rs` holds the string functions the rest is written with.
- `tests/` runs the library on concrete values.
- `app/` is a command-line program around the library: it runs the processes,
  talks HTTP to MediaMTX and WebSocket to OBS, reads and writes the
  configuration file and the keychain, and takes commands on standard input
  (`status`, `diagnostics`, `select <interface>`, `prepare [settings JSON]`, `prepare-obs`, `live`, `stop`,
  `record on|off`, `test-drone <file>`, `preview-fallback`, `camera`,
  `camera-off`, `destination <id|-> <kind> <server> <key|-> <name>`,
  `enable|disable|remove <destination>`, `obs on|off`, `obs-record on|off`,
  `obs-camera on|off`, `obs-connect <host> <port> <password>`, `install-ffmpeg`,
  `about <link>`, `quit`).
  It expects `mediamtx` and its `mediamtx.runtime.yml` next to its executable.
