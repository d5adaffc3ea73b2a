# danmaku_relay

A relay that follows bilibili live rooms, forwards their events to websocket
clients (as json or bincode) and stores them in MongoDB or PostgreSQL.

- `src/` is the verified library: command-line configuration, the
  subscription path `/<roomid>/<json|bincode>`, which consumers a room feeds,
  the reconnect-and-retry decisions of a room's connection, the rows that
  events are stored as, event times, websocket frames and piping.
- `app/` is the program around it: the tokio server, the live-room
  connection, the websocket, MongoDB and PostgreSQL consumers, and the
  conversions between the library's types and those of the outside crates.
- `tests/` exercises the library on concrete values.
