# tokio_with_wasm

A `tokio`-style async runtime for web browsers, built on the JavaScript
event loop and web workers, whose logic is verified with Verus.

- `src/` is the verified library. Each state that a lock or a cell guards
  in the runtime is a type here, with contracts over mathematical views:
  - `time`: spans and instants, a clock that never runs backwards, sleeps
    that arm JavaScript timers without ever completing early, timeouts, and
    interval schedules with their missed-tick behaviors.
  - `fs`: paths of the origin private file system, the mapping of
    JavaScript exceptions to error kinds, open options, metadata, and the
    state machine that buffers the reads and writes of an open file.
  - `common`: the single-value channel, the local channel and the queue of
    completed tasks.
  - `task`: task identifiers, join errors and the race between a task and
    its abort signal, cancellation flags, the cooperative budget, task sets
    and the bookkeeping of the pool of blocking web workers.
  - `macros`: the arguments that the `main` and `test` attribute macros
    accept.
- `tests/` runs the library on concrete scenarios.
- `app/` is the browser side: the JavaScript calls, the shared handles,
  the `Future` and `tokio` trait implementations, and a demonstration.
