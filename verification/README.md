# agenthost

An agent host for LLM chat agents that run stage scripts (rhai), talk to a
hosted chat model or a local llama.cpp model, and serve a chat front end over
HTTP with server-sent events.

## Layout

- `src/` — the verified library (Verus). Its public functions carry
  contracts and every function is verified; calls into outside crates sit
  behind small trusted wrappers whose doc comments say what is assumed of
  them.
  - `chatlog` — session logs, the token window sent to the model, the
    session-file format.
  - `messages`, `json`, `text` — request messages, their token counts, JSON
    string quoting and decoding, string helpers.
  - `llamacppchat` — instruction prompts of the local model families and
    reading script blocks out of a model's reply.
  - `openai_chat` — turning a streamed reply into text or a function call.
  - `agent`, `agentmgr` — an agent's decisions between model and script,
    and the per-(user, session) cache of running agents.
  - `api`, `jwt_util` — request authentication, session parameters, event
    encoding, login tokens.
  - `scripts` — script paths, the sandbox check, script error reports.
- `tests/` — tests of the library, run against the real outside crates.
- `app/` — the program around the library: HTTP servers, the script
  engine, the model clients, files and threads.
