# refactor_radar

A verified library for querying SCIP-backed semantic models of Rust projects: the model and
its lookups, the project cache, element and symbol resolution across cached projects, element
listings and reference queries, project summaries with hotspot files, 5W element briefs, SCIP
index parsing and the mapping of errors to protocol answers.

- `src/` is the library, written in Verus. Its functions carry contracts that the verifier
  proves, except the few small wrappers marked `#[verifier::external_body]` around calls into
  std, `protobuf` and `protobuf_json_mapping`, whose contracts are trusted and say in their
  doc comments what they claim of the outside function. `src/laws.rs` states the properties
  that relate several functions.
- `tests/` runs the library on concrete values.
- `app/` is ordinary Rust around the library: the MCP tool server (parameters and answers on
  the wire, the cache behind a lock), file reading, running `rust-analyzer scip`, brief
  generation through client sampling, and the conversion of the library's protocol answers
  into the MCP SDK's error type.

The server answers queries over projects already in its cache (`McpServer::add_model` puts a
projected model there). It has no `load_scip_project`, `scan_project` or `generate_llm_brief`
tool: loading needs a projection from a SCIP index to a semantic model, and the LLM brief
needs its report renderer; neither is part of this crate. For the same reason the
`generate_rust_scip` answer names no producer. That tool also passes no thread count to
rust-analyzer, since how `rust-analyzer scip` takes one is not known here.
