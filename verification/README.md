# ubervisor

A small daemon manager. It starts and stops the programs of a config file,
reports how they fare, and tells its subscribers when one of them dies. Clients
talk to it over a Unix socket.

- `src/` is the library: everything that the supervisor decides, verified with
  Verus. `model.rs` says what the supervisor's state is and how each operation
  changes it, `context.rs` implements that, and the modules under `laws/` prove
  what holds of the whole.
- `app/` is the program around it: signals, processes, files, the socket, and
  the JSON and TOML forms of the library's types.
- `tests/` runs the library.

The library reads no clock, spawns no process and opens no channel. Where such a
thing is needed in the middle of an operation, the operation is a function from
the state and an event to the next action: the program performs the action and
hands the result back as the next event.
