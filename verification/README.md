# hass_rs

A client for the Home Assistant WebSocket API. Its protocol logic (request
ids, answer matching, subscriptions, the authentication handshake and the
reading of answers) is stated in contracts and proved.

- `src/` is the proved library:
  - `types/` – the messages exchanged with the server (`response`, `command`, `event`);
  - `error` – `HassError` and `HassResult`;
  - `session` – request ids, requests waiting for their answer, open
    subscriptions, and where an incoming message goes;
  - `handshake` – the authentication phase as a state machine;
  - `client` – the requests the client sends and how their answers are read;
  - `json`, `channel` – the outside types the library carries (JSON values,
    tokio channels) and what is assumed of the calls made on them.
- `app/` holds what runs around it: the socket, the reading task, JSON
  encoding and decoding, and the asynchronous `HassClient`.
- `tests/` exercises the library on concrete messages.
