# ruskit

The verified core of a Laravel-style web framework for Rust: the schema, query and
migration builders, model validation rules, the queue's job rules and worker
decisions, cache entry expiry, middleware stacks, storage paths, HTTP endpoint and
retry decisions, scheduled task expressions, and the code generators of the
`cargo kit` command line.

- `src/` is the library, written in Verus: its functions are proved against their
  contracts, and the laws the framework relies on (such as "a second
  migration run applies nothing" or "a reserved job is not handed out again") are
  proof functions. A few have nothing to state of their result: the worker's
  `stop` and `is_running`, which touch a shared atomic flag, and the small trusted
  wrappers around the system clock and outside error messages, whose doc comments
  say what is and is not claimed of them.
- `app/` is the runtime around it: the command line parser, files and processes,
  SQLite, Redis and HTTP clients, the queue worker loop, the cron scheduler and the
  test harness. The decisions stay in the library: `app/` performs the reads,
  writes and requests the library asks for and hands back what came of them. The
  one computation it keeps is the growth of the retry delay between HTTP
  attempts, which is floating point.
- `tests/` exercises the library on concrete values.
