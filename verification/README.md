# multiplayer_bevy

The logic of a small networked multiplayer game (a server and two clients
built on Bevy and renet), written in Verus and proved against its contracts.

- `src/` — the verified library:
  - `lobby.rs`: the players in the game (client id → entity), the server's
    handling of clients that connect and leave, a client's handling of the
    server's messages and position updates.
  - `protocol.rs`: the server's messages and the protocol constants.
  - `input.rs`: movement keys to player input, input to a direction.
  - `animation.rs`: looping sprite frames.
  - `config.rs`: client settings, the client id and the multiplayer switch
    read from configuration values.
  - `connect.rs`: connection attempts with doubling waits.
  - `timing.rs`: a once-per-second throttle for the connection checks, and
    reconnecting after transport errors without losing any.
- `tests/` — tests of the library on concrete values.
- `app/` — the three programs (`server`, `client`, `client-2d`): the engine,
  the transport, the wire encoding and floating-point movement.
