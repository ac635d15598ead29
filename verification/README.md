# chat_back

The server side of a room-based chat.

- `src/` is the verified library:
  - `model`: typed identifiers (`Id`, drawn from random version 4 UUIDs), `User`, `JsonUserView`;
  - `db`: the per-room message store (`MessageDb`, `MessageRoom`, `Comment`) and the member
    registry (`Members`), with the laws that relate posting and reading;
  - `message`: the chat messages and the socket messages that carry them;
  - `channel`: the broadcast channel that fans messages out to every open socket (tokio);
  - `session`: what a socket session does with each message it reads, from the client or from
    the broadcast channel;
  - `repository`: the user repository interface and its use-case holder.
- `app/` is the HTTP and web-socket server around it (axum, tokio), and the JSON shapes (serde).
- `tests/` exercises the library on concrete values.
