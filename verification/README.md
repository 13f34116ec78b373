# jsexec

JavaScript execution in sandboxed workerd isolates, with an AWS Lambda-style
function layer on top. The crate in `src/` is verified with Verus; `app/`
holds the I/O around it (workerd processes and HTTP, the SQLite store of the
Lambda layer, esbuild/tsc/synapse runs, async streams, serde forms).

Layout of `src/`:

- `runner` — workerd configuration and worker module text, port allocation,
  workerd error classification, the NDJSON line buffer, event parsing and the
  start-up probe.
- `import_transform` — rewriting static imports into dynamic ones.
- `types`, `json`, `ids`, `text`, `patterns` — the core types, a plain JSON
  model, UUID identifiers, character-level helpers and the regex calls.
- `activation` — the script store and the decisions of the execution service.
- `bundler`, `plexus_env` — bundling and the Plexus client pipeline.
- `pool` — worker configuration, busy/idle bookkeeping and statistics.
- `lambda` — configuration, types, the registry's rules (names, versions,
  aliases), invocation outcomes, metrics rows, the handler wrapper and context.
