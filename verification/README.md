# component_shape

Framework-neutral component shape metadata and the Model Context Protocol
(MCP) building blocks around it, written in Verus. Every function in `src/`
carries a contract; the verifier proves all of them except those of the
`external_body` wrappers around `syn`, `chrono`, `serde_json`, `rust_decimal`
and std calls, whose contracts are trusted and documented where they stand.

## Layout

- `src/` — the verified library.
  - `json`, `json_text`, `literal`, `text`: JSON values with their
    mathematical model, JSON text reading and writing, literal parsing,
    string helpers.
  - `schema`, `schema_lookup`, `closed_schema`, `normalize`, `input_schema`,
    `validation`: typed JSON Schema values, the closed-schema check, value
    normalization against a schema, schemas and descriptors for component
    input shapes, validation metadata and hints.
  - `mcp_input`, `names`, `component_suffix`, `capabilities`, `shape_use`,
    `rust_syntax`: component shape metadata and naming rules.
  - `protocol`, `definitions`, `tool_metadata`, `results`, `tool_error`:
    tool, resource and prompt definitions with their validation rules, tool
    results and typed errors.
  - `arguments`, `typed`, `decode`: strict decoding of tool-call arguments
    into typed values; primitive values are read by `serde_json`.
  - `keyed`, `server`, `json_resources`: the registry of tools, resources and
    prompts, tool-call dispatch and output checking.
  - `smoke`, `tasks`: the decisions of the stdio smoke client and the
    maintenance command model.
- `app/` — ordinary Rust around the library: conversions to `serde_json` and
  `rmcp` values, the `rmcp` server and stdio serving, the subprocess smoke
  client, and command-line parsing.
- `tests/` — tests run against the compiled library.
