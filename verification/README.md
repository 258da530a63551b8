# shore_mcp

The decision logic of an MCP server that exposes the Shore chat daemon's
command surface over stdio, verified with Verus.

- `src/` — the verified library:
  - `gating` — which tools may run against which profile, with its laws;
  - `profile` — profile kinds, where test profiles live, the environment
    they export;
  - `session` — the access context of a serving session and the laws that
    tie options, profile and access rules together;
  - `attach` — the steps of reaching a daemon (explicit address, discovery,
    spawning and waiting for registration);
  - `reply` — reading daemon frames while waiting for a reply or following
    the log;
  - `tools` — tool parameters, defaults and the daemon command of each tool;
  - `text` — string equality and Unix path joining.
- `app/` — the program: argument parsing, environment and file-system
  access, the daemon connection, and the MCP server itself.
- `tests/` — tests of the library.
