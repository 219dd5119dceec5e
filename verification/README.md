# subagent

Controlled recursive agent spawning: an agent hands a task to a child agent,
within limits on depth and by rules on roles.

- `src/` is the verified library. It decides who may spawn whom (`role`,
  `depth`, `spawn`), what a child is told (`prompt`) and allowed (`config`),
  how a tool call goes on (`spawn`, `tools`, `wait`, `watch`, `handler`), and
  what the model is answered (`effect`, `error`, `result`). A tool call is a
  state machine: the library names an action, the program performs it and
  hands the outcome back. `lifecycle` proves what holds of whole runs.
- `app/` performs the actions against an agent runtime, and holds the types as
  they travel.
- `tests/` runs the library.

Trusted without proof: that `str::trim` removes the characters with the Unicode
property `White_Space` at both ends and nothing else. `std::path::PathBuf` is
declared as an opaque type, of which nothing is claimed.
