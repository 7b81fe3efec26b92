# sway_lsp

The session of a language server for Sway: what it knows of one member of a workspace, and how it
answers the requests of a client.

- `src/` is the library, written in Rust and verified with Verus. Each function states what it
  returns or changes; `src/laws/` states what holds across functions.
  - `session/` holds the session: its documents, its tokens, what can be run, how it starts and
    ends.
  - `project.rs` decides how a project is parsed: which step comes next, and in which order the
    syntax trees are walked.
  - `url.rs` holds the two functions whose contracts are taken on trust: with the URLs of
    `lsp-types`, one parses a text and one makes the URL of a file from its path.
- `app/` is ordinary Rust around the library: locks, files, the numbers of paths, conversions of
  protocol values, and the traits through which the server hands in the compiler and the modules
  that look tokens up.
- `tests/` runs the library on concrete values.
