# lotta_app_server

Verified command logic of a local App Server's WebSocket command groups:
memory, models and providers, schedules, settings, skills, teleport,
terminal, and runtime routing.

- `src/` is the library, verified with Verus. Each module holds one group's
  validations, state transitions and answers; the filesystem, processes,
  stores and provider runtime are observed and driven by the host, which
  hands their results in as plain values.
- `app/` is the host side that can be built around it: serde wire copies of
  the library's messages, settings documents on disk, skill links and shell
  processes.
- `tests/` exercises the library on concrete scenarios.
