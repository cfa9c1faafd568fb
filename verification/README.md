# feobank

A small internet-banking system: a server that keeps users, accounts and
bills in SQLite, and a terminal client that talks to it over TCP.

- `src/` is the verified library.
  - `frame`: messages on the wire (an eight-byte little-endian length, then the
    payload), with the round-trip laws.
  - `reply`: the server's replies, and how the client reads them back.
  - `client`: the account form and the bill code a person types in.
  - `model`: users, accounts, bills, and the requests a client sends.
  - `password`: bcrypt hashing and verification.
  - `server`: one connection of the server as a state machine; each step takes
    the outcome of a database step and returns what to do next, with the laws
    of logging in, opening an account and transferring money.
- `app/` runs the programs: `feobank server` starts the server, and
  `feobank` alone starts the client. It does the networking, the database
  queries, the JSON of the records, the money arithmetic on `f32`, and the
  terminal interface.
- `tests/` exercises the library on concrete values.
