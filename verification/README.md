# grok_cli

A tool that delegates coding tasks to the Grok Build CLI (`grok -p`, headless).

- `src/` holds what the tool decides, verified with Verus: which calls are allowed to run, where
  and with which arguments and environment, and what is answered. `src/laws.rs` states what holds
  of every call.
- `app/` does the outside work: it asks the host's policy, resolves paths on disk and runs the
  process.
- `tests/` runs the library on concrete values.

A call is a sequence of steps. `GrokCliTool::execute` takes the policy's verdict and the JSON
parameters and returns the first `Step`; `directory_resolved`, `workspace_resolved` and `finish`
take it from there.
