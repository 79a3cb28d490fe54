# grand_eden_launcher

The Grand Eden Minecraft launcher: a verified library (`src/`) and the Tauri
application around it (`app/`).

`src/`, checked by Verus:

- `text` — character-level string work: replacement of placeholders, joining,
  splitting at a character, decimal numerals, the tail of a log.
- `paths` — the install tree under `C:\edlauncher` and how path components
  are joined; `config` — the per-user configuration and game directories.
- `json` — the JSON values of version manifests; `rules` — which libraries and
  conditional arguments apply to a Windows client.
- `classpath` — the class path from the manifests and the files that exist.
- `args` — the game's command line.
- `download` — the decisions of preparing the game files, as a state machine
  that the application drives: Java and the game archives come from the
  GitHub repository named in `lib.rs` (`GITHUB_REPO_OWNER`, `GITHUB_REPO_NAME`,
  `GITHUB_BRANCH`), and an install whose recorded revision differs from the
  one published is replaced at the next start.
- `progress`, `game`, `inventory` — what is reported while fetching and
  unpacking, starting the game, and the inventory sent to the server.

`app/` holds what Verus does not check: the Tauri commands and window
handling, file and network work, JSON parsing, process start, and the
settings types that hold floating-point values.
