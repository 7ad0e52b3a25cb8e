# sala_devtools

Verified decisions for development containers: the `dc-*` commands and the HUD panel of the editor.

The library in `src/` does no input or output. Each command is a machine: it says what to do next
(connect, ask, build, run `docker`, send bytes), is told what came of it, and says what to print and
with which code to end. Every public function carries a contract over a mathematical model, and the
laws that hold of the whole stand beside the functions as `law_*` proof functions.

| Part | Modules |
|------|---------|
| States of the workspaces | `devcontainer_hud`, `devcontainer_status` |
| Commands | `smoke`, `smoke_results`, `dc_build`, `dc_connect`, `doctor_run`, `devcontainer_doctor` |
| Command lines and printing | `cli`, `console` |
| Talking to others | `build_progress`, `docker`, `ipc`, `lsp_frame`, `lsp_session` |
| Documents | `schemas`, `json` |
| Panel | `panel`, `panel_course`, `container_lsp` |
| Text and paths | `text`, `path`, `path_prefix`, `platform`, `bytes` |

`app/` is the program around the library: it talks to the daemon over its socket, runs `docker`,
prints, and logs. A `Platform` says how paths are read and where the daemons listen: at their
sockets on Unix, at their named pipes on Windows.

What is trusted without proof: a handful of wrappers around `serde_json` in `json`, the UTF-8
conversions of the standard library in `bytes`, `String::push` in `text`, the clock in
`devcontainer_hud`, and in `platform` what separates paths on the machine. Each says in its comment what is claimed of the outside function.

## Exit codes

| Command | Code | Meaning |
|---------|------|---------|
| `dc-smoke` | 0 | All stages passed |
| | 1 | Daemon connection or health failed |
| | 2 | Docker cannot be used |
| | 3 | No configuration |
| | 4 | No container |
| | 5 | Terminal failed |
| | 6 | Language server failed |
| `dc-doctor` | 0 | Healthy or degraded |
| | 1 | Broken |
| `dc-build`, `dc-connect` | 0 | Done |
| | 1 | Failed |
