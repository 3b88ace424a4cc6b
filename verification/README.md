# fs-sentinel

A daemon that remembers, for each watched filesystem, whether it has been
modified since it was last marked unmodified, and a command-line client that
asks it.

- `src/` is the verified library.  `daemon.rs` holds the bookkeeping as a
  state machine (start, watcher event, client request, cache), `model.rs` the
  spec functions its contracts are stated in, `registry.rs` the map from
  identifiers to states, `ipc.rs` the client requests and answers, `linux.rs`
  the decisions of the Linux platform, `cli.rs` the command-line parsing and
  the client's reaction to an answer, and `laws.rs` the properties that hold
  across operations.
- The registry is a vector of identifiers beside a vector of states, with
  the invariant that no identifier occurs twice, rather than vstd's
  `HashMap` specification: that specification only speaks of a map whose key
  type is known to obey its key model, which vstd establishes for integer
  keys but not for `String`, and the identifiers here are strings; vstd's
  `StringHashMap` takes that property as an assumption and offers no way to
  walk its entries, which the listing and the cache need.  The vectors let
  every lookup, update and walk be proved against a `Map` view.
- Watchers are asked for, not created: each request says whether the
  filesystem was already marked as watched, and `Daemon::watcher_failed`
  puts that mark back when the platform cannot create the watcher.
- `app/` runs it: the async event loop, the Unix socket, `fsnotifywait`, the
  msgpack encoding of messages and cache, and the command line.
- `tests/` exercises the library on concrete values.
