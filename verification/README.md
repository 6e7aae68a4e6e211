# openworkers_runtime

A runtime that runs JavaScript workers (fetch handlers and scheduled jobs) on
an embedded script engine.

- `src/` is the verified library: the start-up state machine of a worker
  (`boot`), the extensions it installs and how they are prepared for a
  startup snapshot (`extensions`), the scripts it runs to bootstrap a worker
  and to trigger a task (`runtime`, `task`, `decimal`), the payloads of
  tasks and the log lines that the script sends to the host (`ext`), the permission answers
  (`permissions`) and the environment in JSON (`env`).
- `app/` drives the engine (deno_core and V8): it performs what the library's
  state machine asks and reports back what happened.
- `tests/` runs the library on concrete values.
