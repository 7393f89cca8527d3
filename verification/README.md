# coagent

The runtime core of an MCP server that hands diff reviews to an agent
backend, written in Verus: the decisions are verified functions with
`requires`/`ensures` contracts, and the host program around them performs
the I/O.

## Layout

- `src/` — the verified library.
  - `state`, `basic_state`: the task state machines (nine and four states).
  - `artifact`, `policy`, `sandbox`: path authorization, the tool registry
    and policy engine, environment filtering and budgets.
  - `kernel`, `basic_kernel`: decision merging, the verdicts, and the
    records the audit store keeps; `storage`, `export`, `replay`: the
    store's rules, its JSON documents and event replay.
  - `canonical`, `json`, `duplicate_keys`, `schema`: canonical JSON and its
    hash, JSON text, duplicate-key detection, schema checks.
  - `tools`, `config`, `profile`, `backend`, `context`, `review`,
    `pipeline`: the review tool, configuration, backends and their
    selection, the prompt context, review validation and the execution
    steps of a tool call.
  - `reasonix`: the agent session protocol (frames, prompts, permission
    answers, retries) as state machines.
  - `worker`: the JSON-RPC worker protocol.
- `app/` — the host: SQLite store, MCP server over stdio, agent process
  sessions, the worker loop. It performs what the library's state
  machines ask for and hands back what happened.
- `tests/` — tests of the library through its public interface.
