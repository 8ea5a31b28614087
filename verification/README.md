# eremote

The core of a remote-desktop system, written in Verus and proved against its
contracts:

- `src/session_registry.rs`, `src/server.rs`, `src/relay.rs`: the signaling
  server's registry of hosts, viewers and sessions, the rate limit on wrong
  passwords, and how every client message is answered or relayed.
- `src/protocol.rs`, `src/json_protocol.rs`, `src/wire.rs`: the binary
  envelope's messages, the viewer's JSON messages and their exact text.
- `src/auth.rs`: password hashing and checking (Argon2id), host ids and
  one-time passwords.
- `src/host.rs`, `src/input.rs`, `src/capture.rs`, `src/config.rs`,
  `src/file_transfer.rs`: the host agent's decisions: approval, reconnect
  backoff, session health, key mapping, monitor selection, settings, and
  verified file transfers.

`app/` holds the programs' I/O around the library: the WebSocket server, the
host's signaling client, the binary encoding, the settings file and file
access on disk. The host agent's peer connection, screen and audio capture,
codecs, input injection, window and tray icon need platform libraries and
are not part of this crate; the decisions of its main loop are
`HostAgent::step` in `src/host.rs`. `tests/` runs the
library on concrete values.
