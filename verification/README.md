# code_core

The logic of a coding assistant, written in Verus and proved against its contracts.

- `src/` is the library. It decides which tools a model is offered and how they are
  written as JSON, how a tool's schema is read and put right, what is told of a command
  that runs, which hooks run and what they are given, which memories are kept, which
  models are known, and how the settings come together.
- `tests/` runs it on concrete values.
- `app/` is what surrounds it: files, the network, the environment, and the loops that
  wait for them.

Each part of the library has its laws beside it: `schema_laws`, `tool_laws`,
`memory_laws`, `hook_laws`, `models_laws`, `config_laws`, and the proof functions at the
end of `sanitize`, `exec`, `exec_events`, `exec_registry`, `config_routing` and
`log_dirs`.

What is taken on trust is marked `#[verifier::external_body]`, `assume_specification` or
`uninterp` where it stands: JSON texts (`json_text`), dates (`time`), identifiers (`ids`),
addresses (`model_url`), regular expressions (`config_parts`), and two functions of the
standard library (`text`, `exec`).
