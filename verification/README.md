# tempest

A launcher for Vortex on Linux: it sets up Wine with DXVK and vkd3d-proton, logs in,
launches games through `vortex://` URIs, and diagnoses the stack.

The decisions the launcher makes are a library verified with Verus (`src/`); the command
line program around it (`app/`) does the file, network and process work and hands the
library plain values.

- `src/text.rs`, `src/num.rs`, `src/order.rs`, `src/path.rs`: text, numbers, ordering and
  paths, with specifications of what std's string methods do (`lines`, `trim`, `find`,
  `replace`, `parse::<u32>`, `Path::join`).
- `src/uri.rs`: reading and writing `vortex://` launch URIs.
- `src/auth.rs`, `src/games.rs`, `src/updater.rs`: what the site's answers mean (session
  cookies, play pages, game titles, the client inside the download).
- `src/crypto.rs`: encrypting stored secrets (AES-256-GCM, Base64).
- `src/config.rs`, `src/logger.rs`, `src/plugin.rs`, `src/launcher.rs`: configuration,
  log lines, plugins, and the Wine command line of a launch.
- `src/setup/`: distribution detection, install commands, DLL installation plans.
- `src/doctor.rs`: the diagnosis, judged from what was observed on the machine.
