# abigail

The routing, skill and governance core of the Abigail home assistant, as a
Verus library. Verus proves the functions in `src/` against their contracts;
how complete a contract is varies, and what comes from outside (the outside
crates' calls, and the host's stores behind the hive, queue and backup
traits) is believed as its declared contract says, not proved.

- `src/` — the verified library. Prompt classification and routing
  (`classifier`, `router`, `tier_resolver`, `layer2`), the execution governor
  and planner (`governor`, `execution_state`, `planner`, `constraint_store`),
  the agentic loop as a state machine (`agentic`), the council's review plan
  and prompts (`council`), skills and their manifests,
  sandbox, signed allow-list policy, secrets, topology, dynamic API skills,
  MCP, the skill factory and the built-in management skills, mentor chat,
  orchestration jobs and their cron schedules. Calls into outside crates (base64, ed25519-dalek, url,
  uuid, chrono, serde_json) sit behind small trusted wrappers whose contracts
  are documented where they are declared.
- `tests/` — scenario tests against the compiled library.
- `app/` — the unverified edge: files and their serde formats, floating-point
  scoring, address parsing, the scheduler's shared state, the driver that
  runs the agentic state machine against a model and tools, tool execution
  with its time limit, provider fallback in routing, and the council's calls.

Verify with `verus` on `src/lib.rs`; the tests run with `cargo test`.
