# rigos

The verified core of RigOS, a runtime that runs agents step by step and
dispatches their MCP tool calls through a tool registry, a policy engine
(OPA/OPAL) and a WebAssembly sandbox, recording every executed call as an
immutable step of a trace.

## Layout

- `src/` — the library, verified with Verus.
  - `engine.rs` — `AgentRun`, the state machine of the agent harness loop
    (step budget, human-approval pause, termination, agent errors), and the
    laws of a whole run.
  - `router.rs` — `DispatchFlow`, the state machine of one tool dispatch:
    registry, policy, sandbox, persistence; and the law that nothing reaches
    the sandbox without a registered artifact and an explicit allow.
  - `policy.rs` — the deny-all posture, the OPA request body and the strict
    reading of its reply.
  - `registry.rs` — sealed tool artifacts, the startup registry and its
    construction from the configured tools.
  - `config.rs` — defaults, and how the command line and the environment
    override the configuration file.
  - `skills.rs` — skill extraction from finished runs and skill routing.
  - `api.rs` — tenant resolution and the HTTP and gRPC ends of a dispatch.
  - `state.rs`, `models.rs`, `protocol.rs`, `sandbox.rs` — the data records.
  - `text.rs`, `json.rs`, `digest.rs`, `ids.rs` — text, JSON, SHA-256 and
    UUID building blocks; the calls into `sha2`, `uuid`, `chrono` and
    `serde_json` sit behind the few trusted wrappers in the last three.
- `tests/` — tests of the library on concrete values.
- `app/` — the daemon around the library: command line, files and
  environment, HTTP (axum) and gRPC (tonic) services, the SQL store (sqlx),
  the remote policy transport (reqwest) and the WebAssembly sandbox
  (wasmtime). It drives the library's state machines and performs the
  actions they return.
