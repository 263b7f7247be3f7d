# picoclaw

A small personal AI assistant for embedded systems (the `takobull` command), whose
core is a library verified with Verus.

## Layout

- `src/` is the verified library: Verus checks every function there, and proves the
  `requires` / `ensures` contracts they carry (a few, such as constructors of empty
  managers and the clock helpers, state nothing more than their type). Calls into
  outside crates (hashing, base64, random numbers, UUIDs, the clock, local time) go
  through a few trusted wrappers whose doc comments say what is assumed of them.
  - `agent/` holds the tool-calling loops as state machines (`executor`,
    `loop_impl`), the conversation context and the system prompt.
  - `llm/` frames the HTTP requests to each provider and reads their replies.
  - `tools/`, `channels/`, `table` hold the registries, keyed by name.
  - `auth/pkce` makes and checks PKCE verifier and challenge pairs.
  - `cron`, `heartbeat`, `runtime`, `session`, `state`, `config` hold the services'
    decisions and data; `json` is the JSON model the library reads and writes.
  - Public `law_*` proof functions state properties that span several operations,
    such as what a table gives back after a write, or how many model requests a run
    can make.
- `app/` is the program around the library: the command line, file and network
  I/O, the async runtime, serialisation, and the traits that users implement
  (tools, channels, model providers).
- `tests/` runs the library on concrete values.
