# cline_xray

A verified library for inspecting what Cline did: it reads Cline's
conversation logs (`api_conversation_history.json`, `ui_messages.json`,
`task_metadata.json`) and its shadow-git checkpoint repositories, and
computes the task lists, statistics, message pages, tool timelines,
thinking blocks, subtask boundaries, step/task/subtask diffs and the
"latest" view, together with the server-side pieces around them (access
and inference logs, token checks, the chat and agent decisions, Jira
records, custom agents).

Layout:

- `src/` — the library, written in Verus: every function carries a
  `requires`/`ensures` contract that Verus proves. File and process I/O is
  left to the caller, which hands the library what it read (JSON already
  mapped to the library's records, git's output as text) and runs what
  the library asks for (the git commands of a diff are driven by the
  `diff_run` state machine, the agent loop by `agent_loop::AgentRun`).
- `tests/` — the tests of the library.
- `app/` — a command-line front end: it finds the Cline storage directory
  (`--root DIR`, `CLINE_STORAGE_ROOT`, or the extension's storage under
  `%APPDATA%`), reads the files, runs git and prints each view as JSON. It
  also chats with Gemini or OpenAI, drives the agent loop against Gemini,
  lists the models, lists Jira issues and manages the custom agents; its
  HTTP requests go through the `curl` program. Run it without arguments
  for the commands.
