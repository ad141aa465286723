# mcp_agent

An agent framework for the Model Context Protocol whose core is verified with
Verus: message framing, JSON-RPC dispatch, session lifecycle, prompt templates,
resources and subscriptions, tools, task retries, authentication tokens,
circuit breaking, alert bookkeeping and suppression, and server registries.

## Layout

- `src/` — the verified library. Public functions state their results in
  `ensures` over mathematical models (`Seq`, `Map`-like keyed lists, views of
  strings and JSON values); where a result rests on the clock or on chance
  (fresh identifiers, timestamps), the contract states what holds of every
  outcome, such as a fresh identifier being a version-4 UUID. Calls into outside crates (uuid, base64,
  mime_guess, jsonschema, serde_json, colored, rand) and into parts of std
  that vstd does not specify go through small trusted wrappers, each with a
  doc comment saying what its contract claims.
- `tests/` — tests of the library, run against the real outside crates.
- `app/` — the runtime around the library: byte streams, tokio tasks, files,
  YAML configuration, logging, the terminal, and the alert threshold
  comparisons on floating-point metrics.
