# msc_agent

The decision logic of the MSC 2 agent and its terminal console, written in
Verus: every public function carries a contract over mathematical models
(`Seq`, `Map`-like views, integers) that Verus proves.

Layout:

- `src/` — the verified library.
  - `text`, `clock` — character-level string operations and UTC timestamps,
    each stated as the `str` operation it stands for.
  - `help` — the handbook's Markdown topics: parsing, the sorted catalog,
    lookup by id.
  - `api`, `health`, `lifecycle`, `config_store`, `backups`, `host_reset`,
    `staging`, `components`, `modpacks`, `files`, `bedrock`,
    `bedrock_runtime`, `capabilities`, `commands`, `geyser`, `sessions` —
    what each agent route admits, in which order, and how it answers; the
    permission each route asks for (`api::route_category`); and the state
    that the routes share: staged uploads (`staging::StagingStore`), the
    modpack imports that wait for manual files
    (`modpacks::PendingImports`) and the host-reset lock, with the
    worker step that drives a running reset (`host_reset::reset_worker_step`).
  - `tui` — the console: prompt editing, the key handling of the server
    editor, settings and world views, the event stream's reconnect policy,
    server selection, and the exact text of each box (`tui::screens`).
  - `update` — the local update command's checks and reports, and the
    steps that put a new payload in place.
- `tests/` — tests run against the compiled library.
- `app/` — the `msc` binary: argument parsing, terminal and network I/O,
  JSON output, and the size texts that are computed in floating point.
