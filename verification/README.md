# indiefuture_template_agent

An AI agent backend: it answers chat messages by letting a model pick one of
its tools, and serves a paid webhook whose clients' credits are checked and
charged through a relay before they are served.

- `src/` is the verified library.
  - `util/json_extract.rs`: JSON documents as the agent reads them, and typed
    extraction of their members.
  - `util/header_map.rs`, `util/header_map_preset.rs`: request headers, built on
    `reqwest`'s `HeaderMap`, and preset header sets.
  - `util/openai.rs`, `ai/`: chat requests to the model and what the agent does
    with the completions; the action sets the model is offered.
  - `tools/`: the tools the model can call and the token-balance tool.
  - `controllers/`: the webhook as a step function from stage and event to the
    next stage and action, its replies, and the relay's endpoints.
  - `types/`: the domain values (addresses, 256-bit integers, bytes, decimals)
    and the completion and message types.
- `app/` is the server: HTTP, environment, serde forms of the library's types,
  and the loop that performs the webhook's actions.
- `tests/` exercise the library on concrete values.
