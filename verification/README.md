# codex_code_mode_host

The host side of the code-mode protocol, verified with Verus.

- `src/protocol.rs`: the protocol's values (versions, capabilities, session
  identifiers, client and host messages) and their views.
- `src/host.rs`: one connection as a state machine (`HostConnection`), its
  model (`next`, `serve_model`), `serve_connection`, which serves a whole
  input transcript, and `write_context`, which names a failed write.
- `src/host_laws.rs`: properties of the handshake and of the session
  lifecycle, proved over the model.
- `src/run_laws.rs`: properties of whole runs: the closed form of a run after
  an accepted hello, and the order that every run's replies keep.
- `src/frame.rs`: length-prefixed framing of messages on a byte stream.
- `src/remote_session.rs`, `src/session_laws.rs`: logical sessions that share
  a lazily started process host, and the numbering of those sessions.
- `src/text.rs`: decimal formatting used in error messages.
- `app/`: the tokio loop that reads frames from stdin, decodes their JSON,
  lets `HostConnection` decide, and writes the replies to stdout.
