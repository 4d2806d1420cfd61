# herdr_plugin

A verified core for building Herdr plugins, written in Verus.

- `src/` is the library, verified by Verus: the event model and typed
  events, the handler registry, the Herdr environment, config path
  resolution, the command lines of the `herdr` CLI and the requests of the
  Herdr socket, the socket event reader and the plugin run lifecycle as state
  machines, and the errors with their messages.
- `app/` is the plain Rust around it: it runs the `herdr` process, talks to
  the socket, reads the environment and config files, holds the serde forms
  of the data, and drives the library's state machines from async code.
- `tests/` runs the library on concrete values.
