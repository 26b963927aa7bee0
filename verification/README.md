# metrique

A library for metric entries, written in Rust and verified with Verus.

A unit of work collects values, closes them, and writes them as an entry whose fields are named in
one of four styles. Entries go to sinks. A global sink is a rendezvous point: metric sources append
to it by name, and the application attaches the sink that takes the entries. Tests install sinks of
their own on a thread or on a runtime.

- `src/` is the library. Functions state what they do in `requires` and `ensures`, and what relates
  several functions is stated in public proof functions. Of what a cell or a lock holds nothing is
  stated: that depends on other threads.
- `tests/` runs the library.
- `app/` is what surrounds the library in a running program: statics and thread-locals, background
  tasks, futures, the rendering of generated code, and the harness of the fuzz targets.

What is trusted and not proved stands in `src/time.rs`, `src/text.rs`, `src/close.rs`, `src/sink.rs`,
`src/fuzz/source.rs` and `src/fuzz/json.rs`: small wrappers around functions and types of the
standard library, of `arbitrary` and of `serde_json`, each with a comment that says what is claimed.
