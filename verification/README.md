# smuc

A small TCP chat: clients log in under a name and a colour, post messages,
and see who joins and leaves. Requests and responses travel as JSON.

- `src/` is the verified library (Verus):
  - `protocol.rs`: the request and response types, their views, builders;
  - `room.rs`: the server's room of logged-in users, keyed by the peer's
    socket address, with login, post and leave;
  - `session.rs`: the per-connection decision step of the server, from an
    event on the connection to the room's next state and the effects;
  - `client.rs`: the client's page state machine;
  - `link.rs`: the decision step of the client's connection to the server;
  - `laws.rs`: properties of the above that span several calls.
- `app/` is the runnable program (`smuc server`, `smuc client`): sockets,
  JSON, the async loops and the GUI, calling the library for every decision.
- `tests/` exercises the library on concrete values.
