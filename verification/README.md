# oddsockets

A verified library for the OddSockets real-time messaging platform, written
in Verus, with an asynchronous transport around it.

- `src/` is the library, every function of it verified: the JSON model the
  protocol reads and builds, error codes, recoverability and recovery advice,
  the client configuration and its validation, message and presence records,
  message size limits, manager discovery, the Engine.IO / Socket.IO framing,
  the connection life cycle as a state machine, and the channel and
  enhanced-feature requests.
- `tests/` runs the library on concrete values.
- `app/` is ordinary Rust: the WebSocket and HTTP transport on tokio, the
  client, channel and enhanced-feature handles that perform the I/O the
  library decides on, serde forms of the records, and a two-client live demo.
