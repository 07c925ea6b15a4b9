# gitops

A small operations tool that keeps a Caddy web server and a Hugo site up to
date from one `gitops.toml`: it upgrades the two executables to configured
versions, generates and publishes the Caddyfile, builds and publishes the site
(draft and production) to GitHub and object storage, and fetches files back
from storage.

- `src/` is the verified library. `ops/caddy.rs` models the `[caddy]` section
  and renders the Caddyfile; `archive.rs` finds an executable in a release
  archive; `cli.rs` holds the command line, notifications and their messages;
  `plan.rs` is the vocabulary of outside work (actions and their answers) and
  the script runner; `ops/upgrade.rs`, `ops/caddy_deploy.rs`,
  `ops/hugo_deploy.rs` and `ops/sync.rs` are the operations as step machines
  from answer to next action; `laws.rs` states properties across steps.
- `app/` performs the actions (processes, files, HTTP, object storage,
  Windows services, Pushover) and parses the command line and the TOML file.
- `tests/` runs the library on concrete inputs, including real tar.gz and zip
  archives.
