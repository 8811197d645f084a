# websocket_v2

The second version of the websocket layer between clients, the router and
the queriers of a search service, as a verified library.

- `src/` is the library, checked by Verus:
  - `meta` — identifiers, requests, events and messages;
  - `event` — the executor that tracks running searches and the handler
    slot of each event type, and the built-in handlers;
  - `router` — client and server events, the message bus that picks the
    channel for each message, the health monitor of a connection, errors;
  - `connection` — the step of a connection's loop and the stream slot of a
    connection;
  - `outside` — the outside types that the library carries.
- `app/` performs what the library decides: sockets, channels, tasks, the
  serde forms of the messages, and the asynchronous traits.
- `tests/` runs the library on concrete values.
