# Chaos Symphony

The core of a networked space game, verified with Verus.

- `src/` is the verified library: the wire message, pending replies of a
  connection and the bridge decisions built on them, ids, the typed protocol
  messages, and the game's entity logic (authentication, routing and trust of
  inbound messages, entity announcements and replication), and where the
  server's TLS credentials come from.
- `tests/` exercise the library on concrete values.
- `app/` is the program around it: QUIC connections, the tokio runtime that
  carries messages, JSON encoding, the bevy plugins that drive the library,
  and the floating-point transformation component.
