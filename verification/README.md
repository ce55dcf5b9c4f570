# iamb_worker

The worker of a Matrix chat client. A user interface sends it requests (log in, list
rooms, join a room, send a message, verify a user) and waits for the answers; the worker
has the Matrix SDK carry them out, and keeps what the program knows of the rooms up to date
while the server sends events.

The decisions are verified with Verus and stand in `src/`:

- `base`, `client`: the values that requests, answers and errors are made of; what the
  worker asks of the client, and what the client answers
- `text`, `ident`, `timeline`: texts for the user, names that the user typed, and the
  messages among the events of a room's history
- `channel`, `task`: the channels, the requests, and the `Requester` that makes them
- `ops`: one machine for each operation; it asks the client for one thing at a time
- `job`, `worker`: requests that are being carried out, and the `ClientWorker`
- `table`, `store`, `handlers`, `reaction`: what the program knows, and how it changes when
  the server sends an event

Each machine has a `start` and a `step` with exact contracts. The proof functions whose
names start with `law_` say what holds over several steps, or of several operations.

`app/` is ordinary Rust around the library: it runs the worker on Tokio, performs the
actions through the Matrix SDK, adds the event handlers, and shows errors through modalkit.

What is taken on trust is marked `external_body` and says so in its doc comment: calls into
the Matrix SDK's identifiers, events and display names, the name of the host, the standard
library's channels, and its `{:?}` for strings.
