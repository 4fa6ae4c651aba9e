# github_skill

A GitHub pull-request and issue assistant for a WASM plugin host, with its
logic verified by Verus.

- `src/` — the verified library: input checks (`validate`), query-value
  percent-encoding (`url`), the GitHub requests of each action
  (`requests`, with JSON objects written by serde_json in `json`), the
  replies built from GitHub's answers (`responses`, `errors`), and each
  action as a step function from event to command (`handlers`). `laws`
  holds properties proved of every action.
- `app/` — the plugin around it: the host's FFI, the loop that performs
  each command, and serde's reading and writing of JSON into copies of the
  library's types.
- `tests/` — tests of the library on concrete values.
