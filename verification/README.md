# kodegen_mcp_tool

Building blocks for Model Context Protocol (MCP) tools, verified with Verus.

- `src/error.rs`: tool errors, and the code and message that a client is told of each.
- `src/tool/`: what a tool says of itself (the `Tool` trait), its responses and schemas, the
  execution context, the routes to a tool and its prompt, and the end of a call: its history
  entry and its reply.
- `src/tool_history.rs`: the tool call history. The inbox of recorded calls, the last 1000
  calls in memory, filters and pages over them, the write queue, and the decisions of the
  background processor.
- `src/history_runs.rs`: what holds over many events of the history: every call is handed over
  to be written once, and the next start loads what was written. A batch whose file cannot be
  opened is dropped.
- `src/lines.rs`: the history file, one JSON text per line, and its cut to the last 5000 lines.
- `src/json.rs`, `src/clock.rs`, `src/text.rs`: JSON values, instants and text.

`app/` holds what surrounds the library: asynchronous execution, `rmcp` routes, files, locks and
the global history.

The names of proof functions that state properties of the library as a whole begin with `law_`.
Functions and specifications that Verus believes without proof are those marked
`external_body` and the `assume_specification` items; each says which function of another crate
it stands for and what it claims of it.
