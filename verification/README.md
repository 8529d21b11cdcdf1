# chat_server

The rules of a small chat server, with contracts that Verus proves.

- `src/` is the library. It decides; it does no input or output. A handler that
  needs something from outside returns a value that says what is needed (a
  statement to run, a list to read) and goes on in `resume` once it is there.
  What is to be done comes back as a list of effects.
  - `ws`: a WebSocket connection, from its token to each message.
  - `commands`: the commands of users and of administrators.
  - `auth`, `token`, `password`, `user`, `data_service`: accounts.
  - `chat`, `message`, `files`: messages and files.
  - `store`, `data_access`, `cache`, `effect`: statements, Redis commands and
    effects.
  - `history`, `tables`: models of what the effects come to, and what is proved
    of them.
  - `text`, `number`, `utils`: texts, numbers, the calculator and the dice.
  - `outside`: the calls into other crates, each with the contract that the
    proofs rely on.
- `app/` is the server around it: Rocket, WebSockets, SQLite and Redis.
- `tests/` runs the library.
