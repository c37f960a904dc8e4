# surf-disco

A client library for Tide Disco applications, with its behaviour stated in contracts and proved
by Verus.

- `src/` is the library: URLs of routes and modules, requests and their headers, what becomes of
  responses, how long to wait for a server, WebSocket handshakes and messages. What has to wait for
  the network or the clock is a state machine that takes events and gives actions.
- `app/` runs these state machines with `surf`, `async-tungstenite` and `async-std`, and turns
  bytes into values with `serde`.
- `tests/` drives the library by hand.
