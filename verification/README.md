# aiagents

A small runtime for AI-assisted software engineering: a language model is
given a task (fix the build, write documentation, review code, ...) and works
on a project through a text-based tool protocol, in workflows that build,
lint and test the project between its steps.

The library in `src/` is written in Verus and verified by it; its functions
carry contracts (the trait declarations for tool results do not: each impl
states its own):

- `text`, `json`, `json_text`: characters, JSON values and their compact text.
- `aimessage`: the conversation with the model and the request built from it.
- `agenttools`: the tools the model may call, how a call is decoded from a
  reply and how its outcome is answered.
- `runtimetools`: calls of the model (`LlmCall`), build results, release
  context.
- `workflows`, `aiagentloop`: build systems, the workflows of the tasks and
  the outer loop.
- `vc`, `repostate`: reading git output, saving and restoring the project.
- `cli`, `config`, `tasks`, `utils`: command line, configuration, task names,
  small helpers.

The tool call in a reply of the model is parsed by `serde_json` inside the
library; which paths the tools may read and write (the first `-f`
directory read-write, the others read-only, `.git` hidden) is decided by
`agenttools::pathguard`.

Everything that touches the outside world (files, processes, HTTP, the
clock) is done by closures that the caller passes in; the contracts say with
which arguments they are called and what is done with whatever they return.
Where a closure must not run at all (a write that is refused or does not
match, a tool call that could not be parsed, an empty command), the function
demands of it only what the allowed calls need, so Verus rejects any other
call.

`app/` is the `aifix` program around the library: command line and
configuration files, requests to the model's endpoint, the file system side
of the tools and the commands that are run.

`tests/` runs the library on concrete values.
