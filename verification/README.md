# neuro_runtime

The logic of the Neuro runtime for SAP ADT development, verified with Verus:
what the ADT HTTP client sends and how it reads the replies, the table of
pending WebSocket requests, the engine's safety policy and runtime diagnosis,
the catalogue and routing of the MCP tools, and, for each tool, the requests it
makes and the decisions it takes between them.

Layout:

- `src/` — the verified library. `types`, `errors`, `json` and `text` hold the
  data types and the text operations the contracts are stated over; `adt`,
  `xml`, `ws`, `policy`, `diagnose`, `review`, `tools` and `cli` the client,
  engine and front-end logic; `mcp/` the tools: request paths and bodies
  (`paths`, `requests`, `lookups`, `transports`, `ui5`, `runtime`, `setup`,
  `wscalls`), readings of replies (`xmltext`, `jsonx`, `abapfile`, `classinfo`),
  and the multi-step tools as step functions (`flow`, `edit`, `atc`, `deploy`,
  `clone`, `classtests`, `execabap`, `program`, `table`).
- `tests/` — tests of the library on concrete values.
- `app/` — the `neuro-cli` program and the I/O around the library: the HTTP
  and WebSocket clients, the engine and the MCP facade that runs the steps.
