# agent2web

A self-hosted web server that is a mobile-friendly control panel for a local coding agent:
dictate or type a task, follow the agent's output live, look at the diff of the working
tree, and commit the files of your choice.  The agent never commits by itself.

The logic of the server is a library that Verus verifies; the rest is a thin program
around it.

- `src/` — the verified library
  - `state`, `agent`, `lifecycle` — runs and conversations, and what holds of them for good
  - `handlers/` — what each request does: steps that take what the commands brought, and say
    what is to be done next
  - `templates`, `html`, `json` — pages and answers
  - `diff`, `stt`, `config`, `auth`, `router` — the other rules
  - `text`, `path`, `porcelain`, `process`, `reply` — what the others are written with
- `tests/` — tests of the library
- `app/` — the program: axum, processes, files, the providers' HTTP APIs

Every page, answer and state after a request is given by a spec function, and the
functions are proved to compute it.  Laws that relate several of them are public proof
functions whose names begin with `law_`.

Four contracts are believed and not proved: `String::push`, `String::from_utf8_lossy` and
`char::is_alphanumeric` of the standard library (in `text`), and the JSON that `serde_json`
writes (in `json`).
