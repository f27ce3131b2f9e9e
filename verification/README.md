# arch_bento

A Discord bot that runs lunch-box ("bento") votes for a server.

- `src/` is the library, with its specifications and proofs:
  - `shop.rs`: the per-server shop list (add without duplicates, remove by
    name, the listing text) and its laws;
  - `command.rs`: reading the `/bento shop add|remove|list` command and
    applying it to a shop list;
  - `bento.rs`: the vote itself as a state machine: button presses in,
    new state and actions out; what the vote's message shows (votes grouped
    by shop, the buttons of each phase); and the laws of the vote;
  - `roulette.rs`: the roulette service's bodies and endpoints;
  - `config.rs`: the bot's settings and decimal reading of its application id.
- `app/` is the program around it: Discord (serenity), the Redis database,
  HTTP calls to the roulette service, JSON and TOML (serde), and the loop
  that performs the actions the library decides on.
- `tests/` runs the library on concrete values.
