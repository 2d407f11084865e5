# Klovy Chat server

The rules of a chat server, verified with Verus, and a small server around them.

`src/` is the library `klovy_chat_server`. It does no I/O. A handler is a function from
what a request asks for and what is known so far to the next step: a document to load, a
change to store, news to tell, or the reply. Its contract says which step that is, for all
inputs; the proof functions whose names begin with `law_` state what holds of whole
handlers and of handlers together.

- `controllers/`: messages, channels, invitations, friends, contacts, bots, administration,
  keys, linked accounts, voice, status, stickers, emoji.
- `middlewares/`: what a request passes before it is answered.
- `loaders/`: the layers and paths of the server, its ports and headers, and the arguments
  of the message migration.
- The other modules: identifiers, texts, lists, orders, pages, percent-encoding, queries,
  patterns, JSON documents, replies.

Calls into other crates (`regex`, `serde_json`, `mongodb`'s identifiers, the query reader of
`actix-web`) stand in `ids.rs`, `json.rs`, `patterns.rs`, `query.rs` and `text.rs`, each with
the contract that is believed of it.

`tests/` runs the library on concrete values. `app/` is a server with MongoDB, actix and axum
that performs the steps of six groups of routes: channels, friends, invitations, stickers,
emoji and the report on security, besides the public description of the server and the
WebSocket for news. The other groups have their rules in `src/` and no handlers in `app/`.
Rate limits by address and the cleaning of input are left to a reverse proxy; the server says
so when it starts.
