# rust_play

A small Verus library collected from a set of Rust exercises, with the
programs around it.

- `src/` — the verified library:
  - `my_option`, `shared_option`: `MyOption` and the `ToMyOption` conversions
    (for `Option`, `String`, `i32`, and `Rc` handles), and `test`.
  - `quota`: `LimitTracker`, which alerts a `Messenger` at 75%, 90% and 100%
    of a quota.
  - `lists`: cons lists with `Box` and with shared `Rc` tails.
  - `my_box`: `MyBox`, a wrapper that dereferences to its content.
  - `rec_append`: appends separator/string pairs, last string first.
  - `queue`: the message queue server's decoding of a received buffer.
  - `http`: request routing and response building of the web server.
  - `timer`: the state shared by a timer future and its completing thread.
  - `demos`: which shared-ownership demonstration runs.
- `tests/` — tests of the library on concrete values.
- `app/` — the programs: servers, executors, threads and printing. Run one
  by naming it as the first argument (`ex-trait`, `misc`, `rc`, `server`,
  `http-server`, `tokio-ex`).
