# judge_slave

The worker of a distributed judge. It connects to a master, shares a secret with
it in a handshake, compiles the submissions that it is handed, runs them on test
cases, and reports the results.

- `src/` is the library, written and proved in Verus. It decides everything and
  does no I/O.
  - `link`: when to connect, read, wait and end.
  - `state`: what each packet of the master and the outcome of each job lead to.
  - `judge`, `wire`, `language`: what they speak of.
  - `keys`: the key exchange, on top of `k256`.
  - `laws`: what holds of the slave as a whole.
- `tests/` runs the library.
- `app/` carries the decisions out, over TCP, with files and a sandbox. The
  messages on the wire are those of the `judge_protocol` crate. The compilers and
  the sandbox are given as an implementation of its `Sandbox` trait.
