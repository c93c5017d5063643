# revibe

The core of a terminal coding assistant that talks to language models,
written in Verus: each function of the library carries a contract, and Verus
proves the code against it.

## Layout

- `src/` — the verified library.
  - `types`, `format`: chat messages and tool calls; merging of streamed
    tool-call fragments by index.
  - `backend` (with `factory`, `generic`, `mistral`, `sse`): provider
    configuration, request headers, errors, the wire forms of the
    OpenAI-compatible and Mistral APIs, and the decoding of event streams.
  - `text`, `style`, `markdown`, `messages`, `widgets`, `panels`, `modes`:
    the text layout of the chat view, as styled lines.
  - `commands`, `session`: the decisions of the interactive session — slash
    commands, user actions, agent events and the notices shown for them.
- `tests/` — tests of the library on concrete values.
- `app/` — the program around it: HTTP clients, serialisation, terminal
  drawing with ratatui, and the asynchronous session loop.

Calls into outside crates (reqwest's header checks, pulldown-cmark's parser,
`String::from_utf8_lossy`, `str::to_lowercase`) go through small trusted
wrappers whose contracts are stated in their doc comments.
