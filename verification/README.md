# signaling

A WebRTC signalling server. Clients connect by WebSocket, chat with each other,
and agree on a peer connection with the server, which sends their video back.

- `src/` decides: what a text frame means, which messages go to whom, and which
  step of a negotiation comes next. It is verified with Verus.
  - `json`, `text`, `message`: the messages and their JSON form
  - `registry`: clients by address
  - `server`: listening, taking in clients, sending what is queued for them,
    telling messages apart
  - `chat`, `negotiation`, `media`, `settings`: what is done about them
  - `session`: serving one client, frame by frame
  - `laws`, `framing`: what holds of all of it together
- `app/` acts: sockets, channels and peer connections.
- `tests/` runs the library on given inputs.
