# razi

Razi is a Discord bot ("the cat bot") for King Arthur's Gold communities. It
reports the status of configured game servers, whitelists new members and cages
accounts younger than two weeks, logs arrivals and departures, and lets admins
restart game services on the host.

This crate is the bot's logic, verified with Verus; `app/` is the program
around it.

* `src/commands/server.rs` and `src/commands/servers.rs`: the server status
  commands, each a state machine whose `step` takes what the program observed
  (Discord, the web API) and gives the next state and action.
* `src/commands/admin.rs`, `src/commands/admins.rs`: the admin check (a state
  machine, with its law: role holders and owners are let in), the service
  restarts and the Vintage Story update.
* `src/handler.rs`: member arrivals (a state machine) and departures.
* `src/misc/tcpr.rs`: the decisions of a remote-console session.
* `src/razi_toml.rs`, `src/settings/toml.rs`, `src/toml.rs`,
  `src/config_file.rs`: the settings and what reading them gives.
* `src/text.rs`, `src/args.rs`, `src/embed.rs`, `src/ids.rs`: decimal text,
  markdown escaping, substring tests, command arguments, embeds.

`app/main.rs` builds the Discord client with serenity, reads the settings file,
fetches from api.kag2d.com with isahc, decodes JSON with serde, and runs the
state machines of the library.
